//! Incoming mails: who takes care of which, and what a mail says.

use vstd::prelude::*;
use crate::text::{
    chars_of, decimal_digits, occurs_at, pieces_of, push_decimal, push_str, remove_all, split_on,
    str_eq, string_of, without,
};

verus! {

/// Who wrote a mail, its subject and its date.
pub type Envelope = (String, String, String);

/// The mails by state.
#[derive(Debug)]
pub struct Info {
    /// The number of the last mail that was fetched.
    pub mail_number: u32,
    pub resolved: Vec<(u32, Envelope, String)>,
    pub assigned: Vec<(u32, Envelope, String)>,
    pub unassigned: Vec<(u32, Envelope)>,
}

/// The answer to the assignment of an unknown mail.
pub open spec fn not_unassigned_message(mail_id: u32) -> Seq<char> {
    "Mail "@ + decimal_digits(mail_id as nat) + " Was not found in unassigned list."@
}

/// The answer to an assignment.
pub open spec fn assigned_message(mail_id: u32, user: Seq<char>) -> Seq<char> {
    "Mail "@ + decimal_digits(mail_id as nat) + " Was assigned to "@ + user + "."@
}

/// The answer to the resolution of an unknown mail.
pub open spec fn not_assigned_message(mail_id: u32) -> Seq<char> {
    "Mail "@ + decimal_digits(mail_id as nat) + " Was not found in assigned list."@
}

/// The answer to a resolution.
pub open spec fn resolved_message(mail_id: u32) -> Seq<char> {
    "Mail "@ + decimal_digits(mail_id as nat) + " Was resolved"@
}

/// Whether the mail at position `i` is the first unassigned one with a number.
pub open spec fn first_unassigned(mails: Seq<(u32, Envelope)>, mail_id: u32, i: int) -> bool {
    &&& 0 <= i < mails.len()
    &&& mails[i].0 == mail_id
    &&& forall|j: int| 0 <= j < i ==> (#[trigger] mails[j]).0 != mail_id
}

/// Whether the mail at position `i` is the first assigned one with a number.
pub open spec fn first_assigned(mails: Seq<(u32, Envelope, String)>, mail_id: u32, i: int) -> bool {
    &&& 0 <= i < mails.len()
    &&& mails[i].0 == mail_id
    &&& forall|j: int| 0 <= j < i ==> (#[trigger] mails[j]).0 != mail_id
}

fn mail_answer(mail_id: u32, tail: &str) -> (r: String)
    ensures
        r@ == "Mail "@ + decimal_digits(mail_id as nat) + tail@,
{
    let mut out: Vec<char> = Vec::new();
    push_str(&mut out, "Mail ");
    push_decimal(&mut out, mail_id as u64);
    push_str(&mut out, tail);
    assert(out@ =~= "Mail "@ + decimal_digits(mail_id as nat) + tail@);
    string_of(&out)
}

impl Info {
    /// No mail in any state.
    pub fn new() -> (r: Info)
        ensures
            r.mail_number == 0,
            r.resolved@.len() == 0,
            r.assigned@.len() == 0,
            r.unassigned@.len() == 0,
    {
        Info { mail_number: 0, resolved: Vec::new(), assigned: Vec::new(), unassigned: Vec::new() }
    }

    /// Gives the first unassigned mail with a number to a user: the mail leaves the
    /// unassigned ones and comes last among the assigned ones.
    pub fn assign(&mut self, mail_id: u32, user: &str) -> (r: String)
        ensures
            final(self).mail_number == old(self).mail_number,
            final(self).resolved@ == old(self).resolved@,
            (forall|i: int| !first_unassigned(old(self).unassigned@, mail_id, i)) ==> {
                &&& r@ == not_unassigned_message(mail_id)
                &&& final(self).unassigned@ == old(self).unassigned@
                &&& final(self).assigned@ == old(self).assigned@
            },
            forall|i: int|
                first_unassigned(old(self).unassigned@, mail_id, i) ==> {
                    &&& r@ == assigned_message(mail_id, user@)
                    &&& final(self).unassigned@ == old(self).unassigned@.remove(i)
                    &&& final(self).assigned@.len() == old(self).assigned@.len() + 1
                    &&& final(self).assigned@.drop_last() == old(self).assigned@
                    &&& final(self).assigned@.last().0 == mail_id
                    &&& final(self).assigned@.last().1 == old(self).unassigned@[i].1
                    &&& final(self).assigned@.last().2@ == user@
                },
    {
        let mut i: usize = 0;
        while i < self.unassigned.len()
            invariant
                i <= self.unassigned.len(),
                *self == *old(self),
                forall|j: int| 0 <= j < i ==> (#[trigger] self.unassigned@[j]).0 != mail_id,
            decreases self.unassigned.len() - i,
        {
            if self.unassigned[i].0 == mail_id {
                assert(first_unassigned(old(self).unassigned@, mail_id, i as int));
                let (id, envelope) = self.unassigned.remove(i);
                self.assigned.push((mail_id, envelope, user.to_owned()));
                assert(self.assigned@.drop_last() =~= old(self).assigned@);
                let mut tail: Vec<char> = Vec::new();
                push_str(&mut tail, " Was assigned to ");
                push_str(&mut tail, user);
                push_str(&mut tail, ".");
                let tail = string_of(&tail);
                let answer = mail_answer(mail_id, tail.as_str());
                assert(answer@ =~= assigned_message(mail_id, user@));
                assert forall|k: int| first_unassigned(
                    old(self).unassigned@,
                    mail_id,
                    k,
                ) implies k == i by {
                    if k < i {
                        assert(old(self).unassigned@[k].0 != mail_id);
                    }
                }
                return answer;
            }
            i = i + 1;
        }
        mail_answer(mail_id, " Was not found in unassigned list.")
    }

    /// Resolves the first assigned mail with a number: the mail leaves the assigned
    /// ones and comes last among the resolved ones.
    pub fn resolve(&mut self, mail_id: u32) -> (r: String)
        ensures
            final(self).mail_number == old(self).mail_number,
            final(self).unassigned@ == old(self).unassigned@,
            (forall|i: int| !first_assigned(old(self).assigned@, mail_id, i)) ==> {
                &&& r@ == not_assigned_message(mail_id)
                &&& final(self).assigned@ == old(self).assigned@
                &&& final(self).resolved@ == old(self).resolved@
            },
            forall|i: int|
                first_assigned(old(self).assigned@, mail_id, i) ==> {
                    &&& r@ == resolved_message(mail_id)
                    &&& final(self).assigned@ == old(self).assigned@.remove(i)
                    &&& final(self).resolved@ == old(self).resolved@.push(old(self).assigned@[i])
                },
    {
        let mut i: usize = 0;
        while i < self.assigned.len()
            invariant
                i <= self.assigned.len(),
                *self == *old(self),
                forall|j: int| 0 <= j < i ==> (#[trigger] self.assigned@[j]).0 != mail_id,
            decreases self.assigned.len() - i,
        {
            if self.assigned[i].0 == mail_id {
                assert(first_assigned(old(self).assigned@, mail_id, i as int));
                let mail = self.assigned.remove(i);
                self.resolved.push(mail);
                assert forall|k: int| first_assigned(
                    old(self).assigned@,
                    mail_id,
                    k,
                ) implies k == i by {
                    if k < i {
                        assert(old(self).assigned@[k].0 != mail_id);
                    }
                }
                return mail_answer(mail_id, " Was resolved");
            }
            i = i + 1;
        }
        mail_answer(mail_id, " Was not found in assigned list.")
    }

    /// Takes in the mails that were fetched: they come last among the unassigned ones,
    /// and the number of the last mail fetched is recorded.
    pub fn receive(&mut self, mail_number: u32, received: Vec<(u32, Envelope)>)
        ensures
            final(self).mail_number == mail_number,
            final(self).unassigned@ == old(self).unassigned@ + received@,
            final(self).assigned@ == old(self).assigned@,
            final(self).resolved@ == old(self).resolved@,
    {
        let mut received = received;
        self.mail_number = mail_number;
        self.unassigned.append(&mut received);
    }
}

/// What the listings need of the date of a mail.
#[derive(Debug)]
pub struct MailDate {
    /// Whether the mail is less than thirty days old.
    pub recent: bool,
    /// The date as day and month.
    pub shown: String,
}

/// Whether a listing for `filter` shows the mails of `who`.
pub open spec fn shows(filter: Seq<char>, who: Seq<char>) -> bool {
    filter == "all"@ || filter == who
}

/// The line of an assigned mail.
pub open spec fn assigned_line(mail: (u32, Envelope, String), shown: Seq<char>) -> Seq<char> {
    "Id: "@ + decimal_digits(mail.0 as nat) + " | Subject: **"@ + mail.1.1@ + "** | From: "@
        + mail.1.0@ + " | Assigned to "@ + mail.2@ + " [ "@ + shown + " ]\n"@
}

/// The line of a resolved mail.
pub open spec fn resolved_line(mail: (u32, Envelope, String), shown: Seq<char>) -> Seq<char> {
    "Subject: **"@ + mail.1.1@ + "** | From: "@ + mail.1.0@ + " | Assigned to "@ + mail.2@
        + " [ "@ + shown + " ]\n"@
}

/// The line of an unassigned mail.
pub open spec fn unassigned_line(mail: (u32, Envelope), shown: Seq<char>) -> Seq<char> {
    "Id: "@ + decimal_digits(mail.0 as nat) + " | Subject: **"@ + mail.1.1@ + "** | From: "@
        + mail.1.0@ + " [ "@ + shown + " ]\n"@
}

/// The lines of the assigned mails that a listing shows: those of the user asked for
/// that are recent.
pub open spec fn assigned_lines(
    mails: Seq<(u32, Envelope, String)>,
    dates: Seq<MailDate>,
    filter: Seq<char>,
) -> Seq<char>
    decreases mails.len(),
{
    if mails.len() == 0 || dates.len() != mails.len() {
        Seq::empty()
    } else {
        assigned_lines(mails.drop_last(), dates.drop_last(), filter) + if shows(
            filter,
            mails.last().2@,
        ) && dates.last().recent {
            assigned_line(mails.last(), dates.last().shown@)
        } else {
            Seq::empty()
        }
    }
}

/// The lines of the resolved mails that a listing shows: those of the user asked for.
pub open spec fn resolved_lines(
    mails: Seq<(u32, Envelope, String)>,
    dates: Seq<MailDate>,
    filter: Seq<char>,
) -> Seq<char>
    decreases mails.len(),
{
    if mails.len() == 0 || dates.len() != mails.len() {
        Seq::empty()
    } else {
        resolved_lines(mails.drop_last(), dates.drop_last(), filter) + if shows(
            filter,
            mails.last().2@,
        ) {
            resolved_line(mails.last(), dates.last().shown@)
        } else {
            Seq::empty()
        }
    }
}

/// The lines of the unassigned mails that a listing shows: the recent ones.
pub open spec fn unassigned_lines(mails: Seq<(u32, Envelope)>, dates: Seq<MailDate>) -> Seq<char>
    decreases mails.len(),
{
    if mails.len() == 0 || dates.len() != mails.len() {
        Seq::empty()
    } else {
        unassigned_lines(mails.drop_last(), dates.drop_last()) + if dates.last().recent {
            unassigned_line(mails.last(), dates.last().shown@)
        } else {
            Seq::empty()
        }
    }
}

impl Info {
    /// Lists the assigned mails of a user, or of everyone for `all`. `dates` gives the
    /// date of each assigned mail, in the same order; with any other number of dates no
    /// mail is listed.
    pub fn display_assigned(&self, filter: &str, dates: &Vec<MailDate>) -> (r: String)
        ensures
            r@ == "Assigned mails:\n"@ + assigned_lines(self.assigned@, dates@, filter@),
    {
        let mut out: Vec<char> = Vec::new();
        push_str(&mut out, "Assigned mails:\n");
        let ghost head = out@;
        if dates.len() != self.assigned.len() {
            assert(out@ =~= head + assigned_lines(self.assigned@, dates@, filter@));
            return string_of(&out);
        }
        let everyone = str_eq(filter, "all");
        let mut i: usize = 0;
        assert(self.assigned@.take(0) =~= Seq::<(u32, Envelope, String)>::empty());
        assert(out@ =~= head + assigned_lines(self.assigned@.take(0), dates@.take(0), filter@));
        while i < self.assigned.len()
            invariant
                i <= self.assigned.len(),
                dates@.len() == self.assigned@.len(),
                everyone == (filter@ == "all"@),
                out@ == head + assigned_lines(
                    self.assigned@.take(i as int),
                    dates@.take(i as int),
                    filter@,
                ),
            decreases self.assigned.len() - i,
        {
            let mail = &self.assigned[i];
            let ghost shown_before = out@;
            proof {
                assert(self.assigned@.take(i as int + 1).drop_last() =~= self.assigned@.take(
                    i as int,
                ));
                assert(dates@.take(i as int + 1).drop_last() =~= dates@.take(i as int));
            }
            if (everyone || str_eq(filter, mail.2.as_str())) && dates[i].recent {
                push_str(&mut out, "Id: ");
                push_decimal(&mut out, mail.0 as u64);
                push_str(&mut out, " | Subject: **");
                push_str(&mut out, mail.1.1.as_str());
                push_str(&mut out, "** | From: ");
                push_str(&mut out, mail.1.0.as_str());
                push_str(&mut out, " | Assigned to ");
                push_str(&mut out, mail.2.as_str());
                push_str(&mut out, " [ ");
                push_str(&mut out, dates[i].shown.as_str());
                push_str(&mut out, " ]\n");
                assert(out@ =~= shown_before + assigned_line(*mail, dates@[i as int].shown@));
            } else {
                assert(out@ =~= shown_before + Seq::<char>::empty());
            }
            i = i + 1;
            assert(out@ =~= head + assigned_lines(
                self.assigned@.take(i as int),
                dates@.take(i as int),
                filter@,
            ));
        }
        assert(self.assigned@.take(self.assigned.len() as int) =~= self.assigned@);
        assert(dates@.take(self.assigned.len() as int) =~= dates@);
        string_of(&out)
    }

    /// Lists the resolved mails of a user, or of everyone for `all`. `dates` gives the
    /// date of each resolved mail, in the same order; with any other number of dates no
    /// mail is listed.
    pub fn display_resolved(&self, filter: &str, dates: &Vec<MailDate>) -> (r: String)
        ensures
            r@ == "Resolved mails:\n"@ + resolved_lines(self.resolved@, dates@, filter@),
    {
        let mut out: Vec<char> = Vec::new();
        push_str(&mut out, "Resolved mails:\n");
        let ghost head = out@;
        if dates.len() != self.resolved.len() {
            assert(out@ =~= head + resolved_lines(self.resolved@, dates@, filter@));
            return string_of(&out);
        }
        let everyone = str_eq(filter, "all");
        let mut i: usize = 0;
        assert(self.resolved@.take(0) =~= Seq::<(u32, Envelope, String)>::empty());
        assert(out@ =~= head + resolved_lines(self.resolved@.take(0), dates@.take(0), filter@));
        while i < self.resolved.len()
            invariant
                i <= self.resolved.len(),
                dates@.len() == self.resolved@.len(),
                everyone == (filter@ == "all"@),
                out@ == head + resolved_lines(
                    self.resolved@.take(i as int),
                    dates@.take(i as int),
                    filter@,
                ),
            decreases self.resolved.len() - i,
        {
            let mail = &self.resolved[i];
            let ghost shown_before = out@;
            proof {
                assert(self.resolved@.take(i as int + 1).drop_last() =~= self.resolved@.take(
                    i as int,
                ));
                assert(dates@.take(i as int + 1).drop_last() =~= dates@.take(i as int));
            }
            if everyone || str_eq(filter, mail.2.as_str()) {
                push_str(&mut out, "Subject: **");
                push_str(&mut out, mail.1.1.as_str());
                push_str(&mut out, "** | From: ");
                push_str(&mut out, mail.1.0.as_str());
                push_str(&mut out, " | Assigned to ");
                push_str(&mut out, mail.2.as_str());
                push_str(&mut out, " [ ");
                push_str(&mut out, dates[i].shown.as_str());
                push_str(&mut out, " ]\n");
                assert(out@ =~= shown_before + resolved_line(*mail, dates@[i as int].shown@));
            } else {
                assert(out@ =~= shown_before + Seq::<char>::empty());
            }
            i = i + 1;
            assert(out@ =~= head + resolved_lines(
                self.resolved@.take(i as int),
                dates@.take(i as int),
                filter@,
            ));
        }
        assert(self.resolved@.take(self.resolved.len() as int) =~= self.resolved@);
        assert(dates@.take(self.resolved.len() as int) =~= dates@);
        string_of(&out)
    }

    /// Lists the unassigned mails. `dates` gives the date of each unassigned mail, in
    /// the same order; with any other number of dates no mail is listed.
    pub fn display_unassigned(&self, dates: &Vec<MailDate>) -> (r: String)
        ensures
            r@ == if self.unassigned@.len() == 0 {
                "No unassigned mails."@
            } else {
                "Unassigned mails:\n"@ + unassigned_lines(self.unassigned@, dates@)
            },
    {
        if self.unassigned.len() == 0 {
            return "No unassigned mails.".to_owned();
        }
        let mut out: Vec<char> = Vec::new();
        push_str(&mut out, "Unassigned mails:\n");
        let ghost head = out@;
        if dates.len() != self.unassigned.len() {
            assert(out@ =~= head + unassigned_lines(self.unassigned@, dates@));
            return string_of(&out);
        }
        let mut i: usize = 0;
        assert(self.unassigned@.take(0) =~= Seq::<(u32, Envelope)>::empty());
        assert(out@ =~= head + unassigned_lines(self.unassigned@.take(0), dates@.take(0)));
        while i < self.unassigned.len()
            invariant
                i <= self.unassigned.len(),
                dates@.len() == self.unassigned@.len(),
                out@ == head + unassigned_lines(
                    self.unassigned@.take(i as int),
                    dates@.take(i as int),
                ),
            decreases self.unassigned.len() - i,
        {
            let mail = &self.unassigned[i];
            let ghost shown_before = out@;
            proof {
                assert(self.unassigned@.take(i as int + 1).drop_last()
                    =~= self.unassigned@.take(i as int));
                assert(dates@.take(i as int + 1).drop_last() =~= dates@.take(i as int));
            }
            if dates[i].recent {
                push_str(&mut out, "Id: ");
                push_decimal(&mut out, mail.0 as u64);
                push_str(&mut out, " | Subject: **");
                push_str(&mut out, mail.1.1.as_str());
                push_str(&mut out, "** | From: ");
                push_str(&mut out, mail.1.0.as_str());
                push_str(&mut out, " [ ");
                push_str(&mut out, dates[i].shown.as_str());
                push_str(&mut out, " ]\n");
                assert(out@ =~= shown_before + unassigned_line(*mail, dates@[i as int].shown@));
            } else {
                assert(out@ =~= shown_before + Seq::<char>::empty());
            }
            i = i + 1;
            assert(out@ =~= head + unassigned_lines(
                self.unassigned@.take(i as int),
                dates@.take(i as int),
            ));
        }
        assert(self.unassigned@.take(self.unassigned.len() as int) =~= self.unassigned@);
        assert(dates@.take(self.unassigned.len() as int) =~= dates@);
        string_of(&out)
    }
}

/// The numbers of the mails to fetch when the box holds `exists` mails and the last
/// one fetched has the number `mail_number`: those after it, up to `exists`; none
/// where the box reports no mail.
pub open spec fn mails_to_fetch(mail_number: u32, exists: u32) -> Seq<u32>
    decreases exists,
{
    if exists == 0 || exists <= mail_number {
        Seq::empty()
    } else {
        mails_to_fetch(mail_number, (exists - 1) as u32).push(exists)
    }
}

/// Says which mails to fetch.
pub fn check_mail(mail_number: u32, exists: u32) -> (r: Vec<u32>)
    ensures
        r@ == mails_to_fetch(mail_number, exists),
{
    let mut out: Vec<u32> = Vec::new();
    if exists == 0 || exists <= mail_number {
        return out;
    }
    let mut x: u32 = mail_number;
    while x < exists
        invariant
            mail_number <= x <= exists,
            out@ == mails_to_fetch(mail_number, x),
        decreases exists - x,
    {
        x = x + 1;
        out.push(x);
    }
    out
}

/// What is announced for a mail that came in.
pub open spec fn received_message(seq: u32, date: Seq<char>, subject: Seq<char>, from: Seq<char>) -> Seq<
    char,
> {
    decimal_digits(seq as nat) + " Email re\u{e7}u le "@ + date + " : "@ + subject
        + ", envoy\u{e9} par "@ + from
}

/// Writes the announcement of a mail that came in.
pub fn received_notice(seq: u32, date: &str, subject: &str, from: &str) -> (r: String)
    ensures
        r@ == received_message(seq, date@, subject@, from@),
{
    let mut out: Vec<char> = Vec::new();
    push_decimal(&mut out, seq as u64);
    push_str(&mut out, " Email re\u{e7}u le ");
    push_str(&mut out, date);
    push_str(&mut out, " : ");
    push_str(&mut out, subject);
    push_str(&mut out, ", envoy\u{e9} par ");
    push_str(&mut out, from);
    assert(out@ =~= received_message(seq, date@, subject@, from@));
    string_of(&out)
}

/// The lines of a text: what stands between its line feeds.
pub open spec fn lines_of(text: Seq<char>) -> Seq<Seq<char>> {
    pieces_of(text, '\n')
}

/// What has been read of a mail.
pub struct Reading {
    pub date: Seq<char>,
    pub from: Seq<char>,
    pub subject: Seq<char>,
    /// The lines of the first part of the mail, one after the other.
    pub body: Seq<char>,
    /// Whether the first part has begun.
    pub mimepart: bool,
    /// Whether the first part has ended.
    pub done: bool,
}

/// What has been read after one more line: a header line is kept whole; a line that
/// begins with `--` begins the first part, and the next such line ends the reading;
/// within the first part the lines that are not empty and do not begin with `Content-`
/// are the body.
pub open spec fn read_line(so_far: Reading, line: Seq<char>) -> Reading {
    if so_far.done {
        so_far
    } else if occurs_at(line, "Date: "@, 0) {
        Reading { date: line, ..so_far }
    } else if occurs_at(line, "From: "@, 0) {
        Reading { from: line, ..so_far }
    } else if occurs_at(line, "Subject: "@, 0) {
        Reading { subject: line, ..so_far }
    } else if occurs_at(line, "--"@, 0) {
        if so_far.mimepart {
            Reading { done: true, ..so_far }
        } else {
            Reading { mimepart: true, ..so_far }
        }
    } else if so_far.mimepart && !occurs_at(line, "Content-"@, 0) && line.len() > 0 {
        Reading { body: so_far.body + line, ..so_far }
    } else {
        so_far
    }
}

/// What has been read after the lines `lines`.
pub open spec fn read_lines(start: Reading, lines: Seq<Seq<char>>) -> Reading
    decreases lines.len(),
{
    if lines.len() == 0 {
        start
    } else {
        read_line(read_lines(start, lines.drop_last()), lines.last())
    }
}

/// A text without its last character.
pub open spec fn chopped(text: Seq<char>) -> Seq<char> {
    if text.len() > 0 {
        text.drop_last()
    } else {
        text
    }
}

/// The date, the sender, the subject and the body that a mail gives, where `date`,
/// `from` and `subject` are what stands for a header that the mail does not have. Each
/// header loses its last character and its title; the date loses its zone as well.
pub open spec fn headers_of(
    date: Seq<char>,
    from: Seq<char>,
    subject: Seq<char>,
    message: Seq<char>,
) -> (Seq<char>, Seq<char>, Seq<char>, Seq<char>) {
    let read = read_lines(
        Reading { date, from, subject, body: Seq::empty(), mimepart: false, done: false },
        lines_of(message),
    );
    (
        without(without(chopped(read.date), " +0000"@), "Date: "@),
        without(chopped(read.from), "From: "@),
        without(chopped(read.subject), "Subject: "@),
        read.body,
    )
}

fn begins_with(line: &Vec<char>, title: &str) -> (r: bool)
    ensures
        r == occurs_at(line@, title@, 0),
{
    let word = chars_of(title);
    if word.len() > line.len() {
        return false;
    }
    let mut k: usize = 0;
    while k < word.len()
        invariant
            k <= word.len() <= line.len(),
            word@ == title@,
            forall|j: int| 0 <= j < k ==> line@[j] == word@[j],
        decreases word.len() - k,
    {
        if line[k] != word[k] {
            assert(line@.subrange(0, word@.len() as int)[k as int] == line@[k as int]);
            return false;
        }
        k = k + 1;
    }
    assert(line@.subrange(0, word@.len() as int) =~= word@);
    true
}

fn chop(text: &Vec<char>) -> (r: String)
    ensures
        r@ == chopped(text@),
{
    let mut out: Vec<char> = Vec::new();
    if text.len() == 0 {
        return string_of(&out);
    }
    let mut i: usize = 0;
    while i < text.len() - 1
        invariant
            i <= text.len() - 1,
            text.len() > 0,
            out@ == text@.take(i as int),
        decreases text.len() - 1 - i,
    {
        out.push(text[i]);
        i = i + 1;
        assert(out@ =~= text@.take(i as int));
    }
    assert(out@ =~= text@.drop_last());
    string_of(&out)
}

/// Reads the date, the sender and the subject of a mail into the three texts given and
/// hands out its body.
pub fn parse_rfc(date: &mut String, from: &mut String, subject: &mut String, message: &str) -> (r:
    String)
    ensures
        (final(date)@, final(from)@, final(subject)@, r@) == headers_of(
            old(date)@,
            old(from)@,
            old(subject)@,
            message@,
        ),
{
    let text = chars_of(message);
    let lines = split_on(&text, '\n');
    let mut date_line = chars_of(date.as_str());
    let mut from_line = chars_of(from.as_str());
    let mut subject_line = chars_of(subject.as_str());
    let mut body: Vec<char> = Vec::new();
    let mut mimepart = false;
    let mut done = false;
    let ghost start = Reading {
        date: old(date)@,
        from: old(from)@,
        subject: old(subject)@,
        body: Seq::empty(),
        mimepart: false,
        done: false,
    };
    let ghost all = lines.deep_view();
    let mut i: usize = 0;
    assert(all.take(0) =~= Seq::<Seq<char>>::empty());
    while i < lines.len()
        invariant
            i <= lines.len(),
            all == lines.deep_view(),
            read_lines(start, all.take(i as int)) == (Reading {
                date: date_line@,
                from: from_line@,
                subject: subject_line@,
                body: body@,
                mimepart,
                done,
            }),
        decreases lines.len() - i,
    {
        let line = &lines[i];
        proof {
            assert(all.take(i as int + 1).drop_last() =~= all.take(i as int));
            assert(all.take(i as int + 1).last() == line@);
        }
        if done {
        } else if begins_with(line, "Date: ") {
            date_line = line.clone();
        } else if begins_with(line, "From: ") {
            from_line = line.clone();
        } else if begins_with(line, "Subject: ") {
            subject_line = line.clone();
        } else if begins_with(line, "--") {
            if mimepart {
                done = true;
            } else {
                mimepart = true;
            }
        } else if mimepart && !begins_with(line, "Content-") && line.len() > 0 {
            let mut copy = line.clone();
            body.append(&mut copy);
        }
        i = i + 1;
    }
    assert(all.take(lines.len() as int) =~= all);
    let chopped_date = chop(&date_line);
    let no_zone = remove_all(chopped_date.as_str(), " +0000");
    *date = remove_all(no_zone.as_str(), "Date: ");
    let chopped_from = chop(&from_line);
    *from = remove_all(chopped_from.as_str(), "From: ");
    let chopped_subject = chop(&subject_line);
    *subject = remove_all(chopped_subject.as_str(), "Subject: ");
    string_of(&body)
}

} // verus!
