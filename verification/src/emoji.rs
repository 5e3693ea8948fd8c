//! Taking a custom emoji over: where its picture is, and how the picture is handed on.

use vstd::prelude::*;
use crate::parse::{emoji_of, emoji_str_convert, EMOJI};
use crate::pattern::first_captures;
use crate::text::{push_str, string_of};

verus! {

/// The standard base64 writing of bytes, with padding.
pub uninterp spec fn base64_of(bytes: Seq<u8>) -> Seq<char>;

/// Writes bytes in base64.
///
/// Calls `base64::encode`. The result is only given its name.
#[verifier::external_body]
pub(crate) fn base64_encode(bytes: &Vec<u8>) -> (r: String)
    ensures
        r@ == base64_of(bytes@),
{
    base64::encode(bytes)
}

/// The ending of the picture of an emoji: animated ones are `gif`, the others `png`.
pub open spec fn extension_of(animated: bool) -> Seq<char> {
    if animated {
        "gif"@
    } else {
        "png"@
    }
}

/// Where the picture of an emoji is.
pub open spec fn emoji_url_of(id: Seq<char>, animated: bool) -> Seq<char> {
    "https://cdn.discordapp.com/emojis/"@ + id + "."@ + extension_of(animated) + "?size=128"@
}

/// How a picture is handed on: its kind, then its bytes in base64.
pub open spec fn data_uri_of(animated: bool, picture: Seq<u8>) -> Seq<char> {
    "data:image/"@ + extension_of(animated) + ";base64,"@ + base64_of(picture)
}

/// The answer where a text holds no custom emoji.
pub open spec fn no_emoji_message() -> Seq<char> {
    "I am not able to get this emoji"@
}

/// The answer where the message that asks for an emoji answers no other message.
pub open spec fn not_a_reply_message() -> Seq<char> {
    "This message is not a reply"@
}

/// The ending of the picture of an emoji.
pub fn extension(animated: bool) -> (r: &'static str)
    ensures
        r@ == extension_of(animated),
{
    if animated {
        "gif"
    } else {
        "png"
    }
}

/// The emoji to take over, with the address of its picture.
#[derive(Debug)]
pub struct EmojiSource {
    pub animated: bool,
    pub name: String,
    pub url: String,
}

/// Finds the emoji to take over in a text, or the answer that says that there is none.
pub fn add(text: &str) -> (r: Result<EmojiSource, String>)
    ensures
        match emoji_of(first_captures(EMOJI@, text@)) {
            Some((animated, name, id)) => r is Ok && r->Ok_0.animated == animated && r->Ok_0.name@
                == name && r->Ok_0.url@ == emoji_url_of(id, animated),
            None => r is Err && r->Err_0@ == no_emoji_message(),
        },
{
    match emoji_str_convert(text) {
        Some((animated, name, id)) => {
            let mut url: Vec<char> = Vec::new();
            push_str(&mut url, "https://cdn.discordapp.com/emojis/");
            push_str(&mut url, id.as_str());
            push_str(&mut url, ".");
            push_str(&mut url, extension(animated));
            push_str(&mut url, "?size=128");
            assert(url@ =~= emoji_url_of(id@, animated));
            Ok(EmojiSource { animated, name, url: string_of(&url) })
        },
        None => Err("I am not able to get this emoji".to_owned()),
    }
}

/// Finds the emoji to take over in the message that a message answers, where it
/// answers one.
pub fn emoji_steal(replied_to: Option<&str>) -> (r: Result<EmojiSource, String>)
    ensures
        match replied_to {
            None => r is Err && r->Err_0@ == not_a_reply_message(),
            Some(text) => match emoji_of(first_captures(EMOJI@, text@)) {
                Some((animated, name, id)) => r is Ok && r->Ok_0.animated == animated
                    && r->Ok_0.name@ == name && r->Ok_0.url@ == emoji_url_of(id, animated),
                None => r is Err && r->Err_0@ == no_emoji_message(),
            },
        },
{
    match replied_to {
        None => Err("This message is not a reply".to_owned()),
        Some(text) => self::add(text),
    }
}

/// Writes a picture as it is handed on.
pub fn picture_data(animated: bool, picture: &Vec<u8>) -> (r: String)
    ensures
        r@ == data_uri_of(animated, picture@),
{
    let encoded = base64_encode(picture);
    let mut out: Vec<char> = Vec::new();
    push_str(&mut out, "data:image/");
    push_str(&mut out, extension(animated));
    push_str(&mut out, ";base64,");
    push_str(&mut out, encoded.as_str());
    assert(out@ =~= data_uri_of(animated, picture@));
    string_of(&out)
}

} // verus!
