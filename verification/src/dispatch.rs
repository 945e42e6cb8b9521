//! Routing of decoded envelopes by event kind.
//!
//! The kind arrives out of band, in a request header. The four recognized
//! kinds are closed variants of [`EventKind`]; every other value is kept in
//! an `Other` variant and reported as processed, never as an error, so new
//! kinds introduced by the source host cannot break the endpoint.

use vstd::prelude::*;
use vstd::string::StrSliceExecFns;
use vstd::string::StringExecFns;
use crate::envelope::{Envelope, EnvelopeView};

verus! {

/// The event kind named by the request header: a closed set of recognized
/// kinds, plus `Other` for any value outside it.
pub enum EventKind {
    Push,
    PullRequest,
    Issues,
    Ping,
    Other(String),
}

/// Spec-level view of [`EventKind`].
pub enum EventKindView {
    Push,
    PullRequest,
    Issues,
    Ping,
    Other(Seq<char>),
}

impl View for EventKind {
    type V = EventKindView;

    open spec fn view(&self) -> EventKindView {
        match self {
            EventKind::Push => EventKindView::Push,
            EventKind::PullRequest => EventKindView::PullRequest,
            EventKind::Issues => EventKindView::Issues,
            EventKind::Ping => EventKindView::Ping,
            EventKind::Other(s) => EventKindView::Other(s@),
        }
    }
}

/// Which [`EventKindView`] a header value denotes.
pub open spec fn spec_kind_of(s: Seq<char>) -> EventKindView {
    if s == "push"@ {
        EventKindView::Push
    } else if s == "pull_request"@ {
        EventKindView::PullRequest
    } else if s == "issues"@ {
        EventKindView::Issues
    } else if s == "ping"@ {
        EventKindView::Ping
    } else {
        EventKindView::Other(s)
    }
}

/// The string a kind is reported as: the header value it came from.
pub open spec fn spec_kind_label(k: EventKindView) -> Seq<char> {
    match k {
        EventKindView::Push => "push"@,
        EventKindView::PullRequest => "pull_request"@,
        EventKindView::Issues => "issues"@,
        EventKindView::Ping => "ping"@,
        EventKindView::Other(s) => s,
    }
}

/// Law: reporting a kind names exactly the header value it was parsed
/// from.
pub proof fn lemma_kind_label_roundtrip(s: Seq<char>)
    ensures
        spec_kind_label(spec_kind_of(s)) == s,
{
}

/// Character-by-character string equality, with the view equality it
/// decides.
fn str_eq(a: &str, b: &str) -> (r: bool)
    ensures
        r == (a@ == b@),
{
    let na = a.unicode_len();
    let nb = b.unicode_len();
    if na != nb {
        return false;
    }
    let mut i: usize = 0;
    while i < na
        invariant
            0 <= i <= na,
            na == a@.len(),
            na == b@.len(),
            forall|k: int| 0 <= k < i ==> a@[k] == b@[k],
        decreases na - i,
    {
        if a.get_char(i) != b.get_char(i) {
            return false;
        }
        i += 1;
    }
    proof {
        assert(a@ =~= b@);
    }
    true
}

/// Parses the event-kind header value into its [`EventKind`].
pub fn parse_event_kind(s: &str) -> (r: EventKind)
    ensures
        r@ == spec_kind_of(s@),
{
    if str_eq(s, "push") {
        EventKind::Push
    } else if str_eq(s, "pull_request") {
        EventKind::PullRequest
    } else if str_eq(s, "issues") {
        EventKind::Issues
    } else if str_eq(s, "ping") {
        EventKind::Ping
    } else {
        EventKind::Other(String::from_str(s))
    }
}

/// The header value a kind is reported as.
pub fn kind_label<'a>(k: &'a EventKind) -> (r: &'a str)
    ensures
        r@ == spec_kind_label(k@),
{
    match k {
        EventKind::Push => "push",
        EventKind::PullRequest => "pull_request",
        EventKind::Issues => "issues",
        EventKind::Ping => "ping",
        EventKind::Other(s) => s.as_str(),
    }
}

/// What the dispatcher returns to the caller.
#[derive(Debug)]
pub struct DispatchResult {
    pub message: String,
    pub processed: bool,
}

/// Spec-level view of [`DispatchResult`].
#[verifier::ext_equal]
pub struct DispatchResultView {
    pub message: Seq<char>,
    pub processed: bool,
}

impl View for DispatchResult {
    type V = DispatchResultView;

    open spec fn view(&self) -> DispatchResultView {
        DispatchResultView { message: self.message@, processed: self.processed }
    }
}

/// The result of dispatching a kind: always processed, with a message
/// naming the kind. Sub-handlers are observational only and cannot fail,
/// so no `(kind, envelope)` pair reaches any other terminal state.
pub open spec fn spec_dispatch(kind: EventKindView, env: EnvelopeView) -> DispatchResultView {
    DispatchResultView {
        message: "Successfully processed "@ + spec_kind_label(kind) + " event"@,
        processed: true,
    }
}

/// Routes a decoded envelope by event kind. Recognized kinds only observe
/// the envelope; unrecognized kinds are accepted as a no-op. Every call
/// returns a processed result — dispatch never fails, whatever the
/// envelope holds.
pub fn dispatch(kind: &EventKind, env: &Envelope) -> (r: DispatchResult)
    ensures
        r@ == spec_dispatch(kind@, env@),
        r.processed == true,
        r.message@ == "Successfully processed "@ + spec_kind_label(kind@) + " event"@,
{
    let label = kind_label(kind);
    let message = String::from_str("Successfully processed ").concat(label).concat(" event");
    DispatchResult { message, processed: true }
}

/// The nested action switch of the pull-request handler.
#[derive(Clone, Copy, PartialEq, Eq, Debug, Structural)]
pub enum PullRequestAction {
    Opened,
    Closed,
    Synchronize,
    Other,
}

/// Which switch arm an action string selects.
pub open spec fn spec_pr_action_of(s: Seq<char>) -> PullRequestAction {
    if s == "opened"@ {
        PullRequestAction::Opened
    } else if s == "closed"@ {
        PullRequestAction::Closed
    } else if s == "synchronize"@ {
        PullRequestAction::Synchronize
    } else {
        PullRequestAction::Other
    }
}

/// What the pull-request handler observes: an action, only when the
/// action, the pull request and the repository are all present. Absence of
/// any of them is a no-op, not an error.
pub open spec fn spec_pull_request_outcome(env: EnvelopeView) -> Option<PullRequestAction> {
    match (env.action, env.pull_request, env.repository) {
        (Some(a), Some(p), Some(r)) => Some(spec_pr_action_of(a)),
        _ => None,
    }
}

/// The pull-request sub-handler: purely observational. It reports which
/// action arm a populated envelope selects, and `None` — never an error —
/// when the action, pull request or repository is absent.
pub fn handle_pull_request_event(env: &Envelope) -> (r: Option<PullRequestAction>)
    ensures
        r == spec_pull_request_outcome(env@),
{
    match (&env.action, &env.pull_request, &env.repository) {
        (Some(a), Some(_p), Some(_r)) => {
            if str_eq(a.as_str(), "opened") {
                Some(PullRequestAction::Opened)
            } else if str_eq(a.as_str(), "closed") {
                Some(PullRequestAction::Closed)
            } else if str_eq(a.as_str(), "synchronize") {
                Some(PullRequestAction::Synchronize)
            } else {
                Some(PullRequestAction::Other)
            }
        },
        _ => None,
    }
}

} // verus!
