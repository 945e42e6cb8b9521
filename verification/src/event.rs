//! A processed event record, as handed to downstream consumers.

use vstd::prelude::*;
use vstd::string::StringExecFns;

verus! {

/// An event that has passed through the pipeline, reduced to the values
/// downstream processing reads. The timestamp is the delivery time as
/// seconds since the Unix epoch.
pub struct GitHubEvent {
    pub event_type: String,
    pub repository: String,
    pub sender: String,
    pub timestamp: i64,
}

/// Spec-level view of [`GitHubEvent`].
#[verifier::ext_equal]
pub struct GitHubEventView {
    pub event_type: Seq<char>,
    pub repository: Seq<char>,
    pub sender: Seq<char>,
    pub timestamp: i64,
}

impl View for GitHubEvent {
    type V = GitHubEventView;

    open spec fn view(&self) -> GitHubEventView {
        GitHubEventView {
            event_type: self.event_type@,
            repository: self.repository@,
            sender: self.sender@,
            timestamp: self.timestamp,
        }
    }
}

/// Failure of event processing. No processing step defined here fails,
/// so no value of this type is ever produced.
#[derive(Clone, Copy, PartialEq, Eq, Debug, Structural)]
pub struct ProcessError;

/// Summarizes a processed event. Always succeeds, with a message naming
/// the event's type and repository.
pub fn process_event(event: GitHubEvent) -> (r: Result<String, ProcessError>)
    ensures
        r is Ok,
        r matches Ok(m) ==> m@ == "Processed "@ + event.event_type@ + " event from "@
            + event.repository@,
{
    let m = String::from_str("Processed ").concat(event.event_type.as_str()).concat(
        " event from ",
    ).concat(event.repository.as_str());
    Ok(m)
}

} // verus!
