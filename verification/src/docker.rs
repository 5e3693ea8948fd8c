//! Previews of branches in containers: the names that a deployment goes by.

use vstd::prelude::*;
use crate::text::{push_str, string_of};

verus! {

/// A text in lower case.
pub uninterp spec fn lowercased(text: Seq<char>) -> Seq<char>;

/// Writes a text in lower case.
///
/// Calls `str::to_lowercase`. The result is only given its name.
#[verifier::external_body]
pub(crate) fn lowercase(text: &str) -> (r: String)
    ensures
        r@ == lowercased(text@),
{
    text.to_lowercase()
}

/// The names of a deployment.
#[derive(Debug)]
pub struct Deployment {
    /// What is announced.
    pub notice: String,
    /// Where the sources are fetched.
    pub tarball: String,
    /// The name of the image.
    pub image: String,
    /// Where the build file lies in the sources.
    pub dockerfile: String,
}

/// What is announced before a deployment.
pub open spec fn notice_of(user: Seq<char>, repository: Seq<char>, branch: Seq<char>) -> Seq<char> {
    "Deploying preview -> "@ + user + "/"@ + repository + "->"@ + branch
}

/// Where the sources of a branch are fetched.
pub open spec fn tarball_of(user: Seq<char>, repository: Seq<char>, branch: Seq<char>) -> Seq<char> {
    "https://github.com/"@ + user + "/"@ + repository + "/archive/"@ + branch + ".tar.gz"@
}

/// The name of the image of a branch: repository and branch in lower case.
pub open spec fn image_of(repository: Seq<char>, branch: Seq<char>) -> Seq<char> {
    lowercased(repository) + "-"@ + lowercased(branch)
}

/// Where the build file lies in the sources of a branch.
pub open spec fn dockerfile_of(repository: Seq<char>, branch: Seq<char>) -> Seq<char> {
    repository + "-"@ + branch + "/Dockerfile"@
}

/// Names what the deployment of a branch needs.
pub fn deploy(user: &str, repository: &str, branch: &str) -> (r: Deployment)
    ensures
        r.notice@ == notice_of(user@, repository@, branch@),
        r.tarball@ == tarball_of(user@, repository@, branch@),
        r.image@ == image_of(repository@, branch@),
        r.dockerfile@ == dockerfile_of(repository@, branch@),
{
    let mut notice: Vec<char> = Vec::new();
    push_str(&mut notice, "Deploying preview -> ");
    push_str(&mut notice, user);
    push_str(&mut notice, "/");
    push_str(&mut notice, repository);
    push_str(&mut notice, "->");
    push_str(&mut notice, branch);
    assert(notice@ =~= notice_of(user@, repository@, branch@));
    let mut tarball: Vec<char> = Vec::new();
    push_str(&mut tarball, "https://github.com/");
    push_str(&mut tarball, user);
    push_str(&mut tarball, "/");
    push_str(&mut tarball, repository);
    push_str(&mut tarball, "/archive/");
    push_str(&mut tarball, branch);
    push_str(&mut tarball, ".tar.gz");
    assert(tarball@ =~= tarball_of(user@, repository@, branch@));
    let low_repository = lowercase(repository);
    let low_branch = lowercase(branch);
    let mut image: Vec<char> = Vec::new();
    push_str(&mut image, low_repository.as_str());
    push_str(&mut image, "-");
    push_str(&mut image, low_branch.as_str());
    assert(image@ =~= image_of(repository@, branch@));
    let mut dockerfile: Vec<char> = Vec::new();
    push_str(&mut dockerfile, repository);
    push_str(&mut dockerfile, "-");
    push_str(&mut dockerfile, branch);
    push_str(&mut dockerfile, "/Dockerfile");
    assert(dockerfile@ =~= dockerfile_of(repository@, branch@));
    Deployment {
        notice: string_of(&notice),
        tarball: string_of(&tarball),
        image: string_of(&image),
        dockerfile: string_of(&dockerfile),
    }
}

} // verus!
