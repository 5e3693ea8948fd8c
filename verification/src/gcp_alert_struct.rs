//! The body of a monitoring alert as the cloud platform sends it.

use vstd::prelude::*;

verus! {

/// An alert.
#[derive(Debug)]
pub struct Root {
    pub version: String,
    pub incident: Incident,
}

/// The incident that an alert reports.
#[derive(Debug)]
pub struct Incident {
    pub incident_id: String,
    pub scoping_project_id: String,
    pub scoping_project_number: i64,
    pub url: String,
    pub started_at: i64,
    pub ended_at: i64,
    pub state: String,
    pub summary: String,
    pub resource_type_display_name: String,
    pub resource_display_name: String,
}

} // verus!
