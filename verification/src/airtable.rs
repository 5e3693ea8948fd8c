//! Tickets of the help desk: telling the new ones.

use vstd::prelude::*;
use crate::text::{push_str, str_eq, string_of};

verus! {

/// The field of a record that holds the request.
pub const REQUEST_FIELD: &'static str = "Requete";

/// A record as the help desk reports it.
#[derive(Debug)]
pub struct Record {
    pub id: String,
    /// The fields of the record, each with its value.
    pub fields: Vec<(String, String)>,
    pub created_time: String,
}

/// The value of the first field with a name.
pub open spec fn field_of(fields: Seq<(String, String)>, name: Seq<char>) -> Option<Seq<char>>
    decreases fields.len(),
{
    if fields.len() == 0 {
        None
    } else if fields[0].0@ == name {
        Some(fields[0].1@)
    } else {
        field_of(fields.drop_first(), name)
    }
}

/// What is announced for a new ticket.
pub open spec fn new_ticket_message(request: Seq<char>) -> Seq<char> {
    "New ticket: "@ + request
}

/// The request of a record, where it has one.
pub fn request_of(record: &Record) -> (r: Option<&String>)
    ensures
        r.deep_view() == field_of(record.fields@, REQUEST_FIELD@),
{
    let mut i: usize = 0;
    assert(record.fields@.skip(0) =~= record.fields@);
    while i < record.fields.len()
        invariant
            i <= record.fields.len(),
            field_of(record.fields@, REQUEST_FIELD@) == field_of(
                record.fields@.skip(i as int),
                REQUEST_FIELD@,
            ),
        decreases record.fields.len() - i,
    {
        assert(record.fields@.skip(i as int)[0] == record.fields@[i as int]);
        assert(record.fields@.skip(i as int).drop_first() =~= record.fields@.skip(i as int + 1));
        if str_eq(record.fields[i].0.as_str(), REQUEST_FIELD) {
            return Some(&record.fields[i].1);
        }
        i = i + 1;
    }
    None
}

/// Writes the announcement of a new ticket.
pub fn check_airtable(request: &str) -> (r: String)
    ensures
        r@ == new_ticket_message(request@),
{
    let mut out: Vec<char> = Vec::new();
    push_str(&mut out, "New ticket: ");
    push_str(&mut out, request);
    assert(out@ =~= new_ticket_message(request@));
    string_of(&out)
}

} // verus!
