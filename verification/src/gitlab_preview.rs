//! Previews of the code-hosting addresses that appear in messages.

use vstd::prelude::*;
use crate::parse::{group_at, group_text};
use crate::pattern::{captures, first_captures};
use crate::text::{chars_of, contains_text, occurs_at, parse_decimal, parse_decimal_spec};

verus! {

/// An address on the code host: a project path, optionally followed by a page of the
/// project and by a fragment.
pub const REGEX_URL_PARSE: &'static str =
    r#"https://lab.blackfoot.io/(([A-z-/]+)/-[A-z-/0-9]+|([A-z-/0-9]+))(#[0-9,A-z]*)?"#;

/// A message that is such an address and nothing else.
pub const REGEX_URL_PARSE_ONLY: &'static str =
    r#"^https://lab.blackfoot.io/(([A-z-/]+)/-[A-z-/0-9]+|([A-z-/0-9]+))(#[0-9,A-z]*)?$"#;

/// The number of a merge request in an address.
pub const REGEX_MERGE_ID: &'static str = r#"/merge_requests/([0-9]{1,4})"#;

/// The part of a project's group that previews use.
#[derive(Debug)]
pub struct ProjectNamespace {
    pub avatar_url: Option<String>,
}

/// A project on the code host.
#[derive(Debug)]
pub struct Project {
    pub id: i64,
    pub description: String,
    pub name: String,
    pub path_with_namespace: String,
    pub web_url: String,
    pub avatar_url: Option<String>,
    pub namespace: ProjectNamespace,
}

/// Who wrote a merge request.
#[derive(Debug)]
pub struct Author {
    pub username: String,
}

/// A merge request of a project.
#[derive(Debug)]
pub struct MergeRequest {
    pub iid: i64,
    pub title: String,
    pub description: String,
    pub state: String,
    pub created_at: String,
    pub author: Author,
    pub source_branch: String,
    pub merge_status: String,
}

/// The number that the groups of a merge-request match hold: group 1 read as a decimal
/// number, where it is there and fits.
pub open spec fn merge_id_of(found: Option<Seq<Option<Seq<char>>>>) -> Option<i64> {
    match found {
        None => None,
        Some(groups) => match group_text(groups, 1) {
            None => None,
            Some(digits) => match parse_decimal_spec(digits) {
                Some(n) => if n <= i64::MAX as u64 {
                    Some(n as i64)
                } else {
                    None
                },
                None => None,
            },
        },
    }
}

/// What is previewed for a message, from the groups of the address found in it and of
/// the merge request found in it: the project path and, for a page of a project, the
/// merge request's number where the message holds one.
pub open spec fn preview_of(
    address: Option<Seq<Option<Seq<char>>>>,
    merge: Option<Seq<Option<Seq<char>>>>,
) -> Option<(Seq<char>, Option<i64>)> {
    match address {
        None => None,
        Some(groups) => match group_text(groups, 2) {
            Some(path) => Some((path, merge_id_of(merge))),
            None => match group_text(groups, 3) {
                Some(path) => Some((path, None)),
                None => None,
            },
        },
    }
}

/// A preview with its path taken as a sequence of characters.
pub open spec fn preview_view(r: Option<(String, Option<i64>)>) -> Option<(Seq<char>, Option<i64>)> {
    match r {
        Some((path, merge)) => Some((path@, merge)),
        None => None,
    }
}

fn merge_id_from_captures(found: &Option<Vec<Option<String>>>) -> (r: Option<i64>)
    ensures
        r == merge_id_of(found.deep_view()),
{
    match found {
        None => None,
        Some(groups) => match group_at(groups, 1) {
            None => None,
            Some(digits) => {
                let chars = chars_of(digits.as_str());
                match parse_decimal(&chars) {
                    Some(n) => if n <= 0x7fff_ffff_ffff_ffff {
                        Some(n as i64)
                    } else {
                        None
                    },
                    None => None,
                }
            },
        },
    }
}

/// Reads what to preview from the groups matched in a message.
pub fn preview_from_captures(
    address: &Option<Vec<Option<String>>>,
    merge: &Option<Vec<Option<String>>>,
) -> (r: Option<(String, Option<i64>)>)
    ensures
        preview_view(r) == preview_of(address.deep_view(), merge.deep_view()),
{
    match address {
        None => None,
        Some(groups) => match group_at(groups, 2) {
            Some(path) => Some((path.clone(), merge_id_from_captures(merge))),
            None => match group_at(groups, 3) {
                Some(path) => Some((path.clone(), None)),
                None => None,
            },
        },
    }
}

/// Says whether a message holds an address to preview, and which project and merge
/// request it names.
pub fn check_message_should_preview(message: &str) -> (r: Option<(String, Option<i64>)>)
    ensures
        preview_view(r) == preview_of(
            first_captures(REGEX_URL_PARSE@, message@),
            first_captures(REGEX_MERGE_ID@, message@),
        ),
{
    let address = captures(REGEX_URL_PARSE, message);
    let merge = captures(REGEX_MERGE_ID, message);
    preview_from_captures(&address, &merge)
}

/// Whether a message is an address and nothing else, so that the preview can stand in
/// its place.
pub fn is_url_only(message: &str) -> (r: bool)
    ensures
        r == first_captures(REGEX_URL_PARSE_ONLY@, message@) is Some,
{
    captures(REGEX_URL_PARSE_ONLY, message).is_some()
}

/// Finds the first project whose path holds `project_to_find`.
pub fn find_project(projects: &Vec<Project>, project_to_find: &str) -> (r: Option<usize>)
    ensures
        match r {
            Some(i) => i < projects@.len() && (exists|at: int|
                occurs_at(projects@[i as int].path_with_namespace@, project_to_find@, at))
                && forall|j: int|
                0 <= j < i ==> !(exists|at: int|
                    occurs_at(
                        (#[trigger] projects@[j]).path_with_namespace@,
                        project_to_find@,
                        at,
                    )),
            None => forall|j: int|
                0 <= j < projects@.len() ==> !(exists|at: int|
                    occurs_at(
                        (#[trigger] projects@[j]).path_with_namespace@,
                        project_to_find@,
                        at,
                    )),
        },
{
    let mut i: usize = 0;
    while i < projects.len()
        invariant
            i <= projects.len(),
            forall|j: int|
                0 <= j < i ==> !(exists|at: int|
                    occurs_at(
                        (#[trigger] projects@[j]).path_with_namespace@,
                        project_to_find@,
                        at,
                    )),
        decreases projects.len() - i,
    {
        if contains_text(projects[i].path_with_namespace.as_str(), project_to_find) {
            return Some(i);
        }
        i = i + 1;
    }
    None
}

/// Finds the first merge request with the number `merge_id`.
pub fn find_merge_request(requests: &Vec<MergeRequest>, merge_id: i64) -> (r: Option<usize>)
    ensures
        match r {
            Some(i) => i < requests@.len() && requests@[i as int].iid == merge_id && forall|j: int|
                0 <= j < i ==> (#[trigger] requests@[j]).iid != merge_id,
            None => forall|j: int|
                0 <= j < requests@.len() ==> (#[trigger] requests@[j]).iid != merge_id,
        },
{
    let mut i: usize = 0;
    while i < requests.len()
        invariant
            i <= requests.len(),
            forall|j: int| 0 <= j < i ==> (#[trigger] requests@[j]).iid != merge_id,
        decreases requests.len() - i,
    {
        if requests[i].iid == merge_id {
            return Some(i);
        }
        i = i + 1;
    }
    None
}

/// The seconds for which what was fetched counts as fresh.
pub const FRESH_SECONDS: i64 = 3600;

/// Whether what was fetched at `updated_at` is taken for outdated at `now`: as long as
/// less than an hour has passed since.
pub open spec fn outdated(updated_at: i64, now: i64) -> bool {
    updated_at + FRESH_SECONDS > now
}

/// Says whether what was fetched at `updated_at` is taken for outdated at `now`.
pub fn is_outdated(updated_at: i64, now: i64) -> (r: bool)
    ensures
        r == outdated(updated_at, now),
{
    if updated_at > i64::MAX - FRESH_SECONDS {
        true
    } else {
        updated_at + FRESH_SECONDS > now
    }
}

/// Says whether the projects have to be fetched again: when none were fetched yet, or
/// when the ones fetched are taken for outdated.
pub fn get_or_update_cache(fetched_at: Option<i64>, now: i64) -> (r: bool)
    ensures
        r == match fetched_at {
            Some(at) => outdated(at, now),
            None => true,
        },
{
    match fetched_at {
        Some(at) => is_outdated(at, now),
        None => true,
    }
}

/// Says whether the merge requests kept for a project can be used: when some are kept
/// and they are not taken for outdated.
pub fn gitlab_get_project_merge_requests(kept_at: Option<i64>, now: i64) -> (r: bool)
    ensures
        r == match kept_at {
            Some(at) => !outdated(at, now),
            None => false,
        },
{
    match kept_at {
        Some(at) => !is_outdated(at, now),
        None => false,
    }
}

/// The picture shown with every preview.
pub const PREVIEW_IMAGE: &'static str =
    "https://lab.blackfoot.io/assets/gitlab_logo-7ae504fe4f68fdebb3c2034e36621930cd36ea87924c11ff65dbcb8ed50dca58.png";

/// What a preview shows.
#[derive(Debug)]
pub struct Preview {
    pub title: String,
    pub url: String,
    pub footer: &'static str,
    pub image: &'static str,
    pub description: String,
    /// The fields, each with its name and its value, in order.
    pub fields: Vec<(&'static str, String)>,
}

/// The fields of a preview: the description of the project where it has one, then the
/// author and the merge status of the merge request where there is one.
pub open spec fn preview_fields(project: Project, merge_request: Option<MergeRequest>) -> Seq<
    (Seq<char>, Seq<char>),
> {
    let first = if project.description@.len() > 0 {
        seq![("description"@, project.description@)]
    } else {
        Seq::empty()
    };
    match merge_request {
        Some(request) => first + seq![
            ("author"@, request.author.username@),
            ("merge_status"@, request.merge_status@),
        ],
        None => first,
    }
}

/// Lays a preview out: for a merge request its title and description, for a project
/// the address and the path of the project.
pub fn display_preview(url: &str, project: &Project, merge_request: Option<&MergeRequest>) -> (r:
    Preview)
    ensures
        r.url@ == url@,
        r.footer@ == "Gitlab Preview"@,
        r.image@ == PREVIEW_IMAGE@,
        r.title@ == match merge_request {
            Some(request) => request.title@,
            None => url@,
        },
        r.description@ == match merge_request {
            Some(request) => request.description@,
            None => project.path_with_namespace@,
        },
        r.fields.deep_view() == preview_fields(
            *project,
            match merge_request {
                Some(request) => Some(*request),
                None => None,
            },
        ),
{
    let mut fields: Vec<(&'static str, String)> = Vec::new();
    if !project.description.as_str().is_empty() {
        fields.push(("description", project.description.clone()));
    }
    let ghost first = fields.deep_view();
    assert(first =~= if project.description@.len() > 0 {
        seq![("description"@, project.description@)]
    } else {
        Seq::empty()
    });
    match merge_request {
        Some(request) => {
            fields.push(("author", request.author.username.clone()));
            fields.push(("merge_status", request.merge_status.clone()));
            assert(fields.deep_view() =~= first + seq![
                ("author"@, request.author.username@),
                ("merge_status"@, request.merge_status@),
            ]);
            Preview {
                title: request.title.clone(),
                url: url.to_owned(),
                footer: "Gitlab Preview",
                image: PREVIEW_IMAGE,
                description: request.description.clone(),
                fields,
            }
        },
        None => Preview {
            title: url.to_owned(),
            url: url.to_owned(),
            footer: "Gitlab Preview",
            image: PREVIEW_IMAGE,
            description: project.path_with_namespace.clone(),
            fields,
        },
    }
}

} // verus!
