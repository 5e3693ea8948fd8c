//! Addresses of the services that the bot talks to.

use vstd::prelude::*;
use crate::text::{push_str, string_of};

verus! {

/// The base address of the deployment supervisor.
#[allow(non_camel_case_types)]
pub struct CODEFLOW_SUPERVISOR_URL {
    pub base: String,
}

impl CODEFLOW_SUPERVISOR_URL {
    /// The address of `path` on the supervisor: the base, a slash, the path.
    pub fn format_url(&self, path: String) -> (r: String)
        ensures
            r@ == self.base@ + "/"@ + path@,
    {
        let mut out: Vec<char> = Vec::new();
        push_str(&mut out, self.base.as_str());
        push_str(&mut out, "/");
        push_str(&mut out, path.as_str());
        assert(out@ =~= self.base@ + "/"@ + path@);
        string_of(&out)
    }
}

} // verus!
