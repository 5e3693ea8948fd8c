//! The bodies of the requests that the web hooks receive.

use vstd::prelude::*;
use vstd::string::StringSliceAdditionalSpecFns;
use crate::database::Message;
use crate::parse::{discord_id_of, discord_str_to_id, DiscordIds, DISCORD_IDS};
use crate::pattern::first_captures;
use crate::text::{
    decimal_digits, push_decimal, push_str, reinterpret_signed, str_eq, string_of, to_signed,
};

verus! {

/// The greeting served at the root address.
pub fn index() -> (r: &'static str)
    ensures
        r@ == "hello"@,
{
    "hello"
}

/// A deployment that asks for a second factor.
#[derive(Debug)]
pub struct Deployment {
    pub deployment_name: String,
    pub ci_url: String,
}

/// A monitoring alert.
#[derive(Debug)]
pub struct GCPAlert {
    pub version: String,
    pub incident: Incident,
}

/// The incident that a monitoring alert reports.
#[derive(Debug)]
pub struct Incident {
    pub incident_id: String,
    pub scoping_project_id: String,
    pub url: String,
    pub started_at: i64,
    pub ended_at: i64,
    pub state: String,
    pub summary: String,
    pub resource_type_display_name: String,
    pub resource_display_name: String,
}

/// Why a request is turned away at the door.
#[derive(Copy, Clone, Debug, PartialEq, Eq, Structural)]
pub enum ApiKeyError {
    Missing,
    Invalid,
}

/// How a request is answered.
#[derive(Copy, Clone, Debug, PartialEq, Eq, Structural)]
pub enum Status {
    Accepted,
    BadRequest,
    Unauthorized,
}

/// What a request has to show: the key after the word `Bearer`.
pub open spec fn bearer(api_key: Seq<char>) -> Seq<char> {
    "Bearer "@ + api_key
}

/// Checks what a request shows for a key.
pub fn from_request(authorization: Option<&str>, api_key: &str) -> (r: Result<(), ApiKeyError>)
    ensures
        r == match authorization {
            None => Err::<(), ApiKeyError>(ApiKeyError::Missing),
            Some(shown) => if shown@ == bearer(api_key@) {
                Ok(())
            } else {
                Err(ApiKeyError::Invalid)
            },
        },
{
    match authorization {
        None => Err(ApiKeyError::Missing),
        Some(shown) => {
            let mut wanted: Vec<char> = Vec::new();
            push_str(&mut wanted, "Bearer ");
            push_str(&mut wanted, api_key);
            assert(wanted@ =~= bearer(api_key@));
            let wanted = string_of(&wanted);
            if str_eq(shown, wanted.as_str()) {
                Ok(())
            } else {
                Err(ApiKeyError::Invalid)
            }
        },
    }
}

/// The longest message that is passed on, in bytes.
pub const MESSAGE_LIMIT: usize = 2000;

/// The answer to a message that is too long.
pub open spec fn too_long_message(len: usize) -> Seq<char> {
    "Too Long Message ("@ + decimal_digits(len as nat) + ")"@
}

/// The answer to a channel that cannot be read.
pub open spec fn bad_channel_message(channelid: Seq<char>) -> Seq<char> {
    "Unable to parse channelid: "@ + channelid
}

/// What a request to pass a message on comes to: the channel that the message goes
/// to, or the refusal with its answer. A message of more than 2000 bytes is refused
/// before the channel is read.
pub open spec fn send_plan(
    len: usize,
    channelid: Seq<char>,
    parsed: Result<(u64, DiscordIds), Seq<char>>,
) -> Result<u64, (Status, Seq<char>)> {
    if len > MESSAGE_LIMIT {
        Err((Status::BadRequest, too_long_message(len)))
    } else {
        match parsed {
            Ok((id, kind)) => Ok(id),
            Err(answer) => Err((Status::BadRequest, bad_channel_message(channelid))),
        }
    }
}

/// A plan with its answer taken as a sequence of characters.
pub open spec fn plan_view(r: Result<u64, (Status, String)>) -> Result<u64, (Status, Seq<char>)> {
    match r {
        Ok(id) => Ok(id),
        Err((status, answer)) => Err((status, answer@)),
    }
}

fn bad_channel(channelid: &str) -> (r: String)
    ensures
        r@ == bad_channel_message(channelid@),
{
    let mut out: Vec<char> = Vec::new();
    push_str(&mut out, "Unable to parse channelid: ");
    push_str(&mut out, channelid);
    assert(out@ =~= bad_channel_message(channelid@));
    string_of(&out)
}

/// Plans the passing on of a message to a channel.
pub fn send_message(channelid: &str, message: &str) -> (r: Result<u64, (Status, String)>)
    ensures
        plan_view(r) == send_plan(
            message.spec_bytes().len() as usize,
            channelid@,
            discord_id_of(
                channelid@,
                first_captures(DISCORD_IDS@, channelid@),
                Some(DiscordIds::Channel),
            ),
        ),
{
    let len = message.len();
    if len > MESSAGE_LIMIT {
        let mut out: Vec<char> = Vec::new();
        push_str(&mut out, "Too Long Message (");
        push_decimal(&mut out, len as u64);
        push_str(&mut out, ")");
        assert(out@ =~= too_long_message(len));
        return Err((Status::BadRequest, string_of(&out)));
    }
    match discord_str_to_id(channelid, Some(DiscordIds::Channel)) {
        Ok((id, _)) => Ok(id),
        Err(_) => Err((Status::BadRequest, bad_channel(channelid))),
    }
}

/// The positions of the messages of a channel, in order.
pub open spec fn channel_messages(messages: Seq<Message>, channel: i64) -> Seq<int>
    decreases messages.len(),
{
    if messages.len() == 0 {
        Seq::empty()
    } else if messages.last().channel == channel {
        channel_messages(messages.drop_last(), channel).push(messages.len() - 1)
    } else {
        channel_messages(messages.drop_last(), channel)
    }
}

/// Finds the messages of the channel with an identifier.
pub fn messages_of_channel(messages: &Vec<Message>, channel: u64) -> (r: Vec<usize>)
    ensures
        Seq::new(r@.len(), |k: int| r@[k] as int) == channel_messages(
            messages@,
            reinterpret_signed(channel),
        ),
        forall|k: int| 0 <= k < r@.len() ==> (#[trigger] r@[k]) < messages@.len(),
{
    let wanted = to_signed(channel);
    let mut out: Vec<usize> = Vec::new();
    let mut i: usize = 0;
    assert(messages@.take(0) =~= Seq::<Message>::empty());
    assert(Seq::new(out@.len(), |k: int| out@[k] as int) =~= channel_messages(
        messages@.take(0),
        wanted,
    ));
    while i < messages.len()
        invariant
            i <= messages.len(),
            wanted == reinterpret_signed(channel),
            Seq::new(out@.len(), |k: int| out@[k] as int) == channel_messages(
                messages@.take(i as int),
                wanted,
            ),
            forall|k: int| 0 <= k < out@.len() ==> (#[trigger] out@[k]) < i,
        decreases messages.len() - i,
    {
        let ghost before = Seq::new(out@.len(), |k: int| out@[k] as int);
        proof {
            assert(messages@.take(i as int + 1).drop_last() =~= messages@.take(i as int));
            assert(messages@.take(i as int + 1).last() == messages@[i as int]);
        }
        if messages[i].channel == wanted {
            out.push(i);
            assert(Seq::new(out@.len(), |k: int| out@[k] as int) =~= before.push(i as int));
        }
        i = i + 1;
    }
    assert(messages@.take(messages.len() as int) =~= messages@);
    out
}

/// Finds the messages of a channel given by its mention, or refuses the mention.
pub fn get_channel_message(channelid: &str, messages: &Vec<Message>) -> (r: Result<
    Vec<usize>,
    String,
>)
    ensures
        match discord_id_of(
            channelid@,
            first_captures(DISCORD_IDS@, channelid@),
            Some(DiscordIds::Channel),
        ) {
            Ok((id, kind)) => r is Ok && Seq::new(
                r->Ok_0@.len(),
                |k: int| r->Ok_0@[k] as int,
            ) == channel_messages(messages@, reinterpret_signed(id)),
            Err(answer) => r is Err && r->Err_0@ == bad_channel_message(channelid@),
        },
{
    match discord_str_to_id(channelid, Some(DiscordIds::Channel)) {
        Ok((id, _)) => Ok(messages_of_channel(messages, id)),
        Err(_) => Err(bad_channel(channelid)),
    }
}

/// The title of the request for a second factor.
pub const TWO_FACTOR_TITLE: &'static str = "2FD";

/// What the request for a second factor says.
pub open spec fn two_factor_text(deployment_name: Seq<char>) -> Seq<char> {
    "A Github Actions want to update **"@ + deployment_name
        + "** docker image.\n\n\u{2705} Accept | \u{274c} Reject"@
}

/// Writes the request for a second factor on a deployment.
pub fn two_factor_deployment(body: &Deployment) -> (r: String)
    ensures
        r@ == two_factor_text(body.deployment_name@),
{
    let mut out: Vec<char> = Vec::new();
    push_str(&mut out, "A Github Actions want to update **");
    push_str(&mut out, body.deployment_name.as_str());
    push_str(&mut out, "** docker image.\n\n\u{2705} Accept | \u{274c} Reject");
    assert(out@ =~= two_factor_text(body.deployment_name@));
    string_of(&out)
}

/// What is said of an alert, before and after its details.
pub open spec fn alert_text(incident: Incident, details: Seq<char>) -> Seq<char> {
    incident.scoping_project_id@ + ": "@ + incident.summary@ + "\n"@ + incident.url@
        + "\n```json\n"@ + details + "\n```"@
}

/// Writes what is said of an alert. `details` is the alert written out in full.
pub fn webhook_from_gcp(alert: &GCPAlert, details: &str) -> (r: String)
    ensures
        r@ == alert_text(alert.incident, details@),
{
    let mut out: Vec<char> = Vec::new();
    push_str(&mut out, alert.incident.scoping_project_id.as_str());
    push_str(&mut out, ": ");
    push_str(&mut out, alert.incident.summary.as_str());
    push_str(&mut out, "\n");
    push_str(&mut out, alert.incident.url.as_str());
    push_str(&mut out, "\n```json\n");
    push_str(&mut out, details);
    push_str(&mut out, "\n```");
    assert(out@ =~= alert_text(alert.incident, details@));
    string_of(&out)
}

} // verus!
