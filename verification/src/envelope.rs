//! The decoded shape of a webhook event body.
//!
//! Every field of the envelope is optional: which sub-objects must be
//! present is decided by the dispatcher for each event kind, never by the
//! decoder. Each executable type has a spec-level view over sequences of
//! characters, which the decoder's and dispatcher's contracts speak of.

use vstd::prelude::*;

verus! {

/// The account that triggered an event.
pub struct User {
    pub login: String,
    pub html_url: String,
}

/// Spec-level view of [`User`].
#[verifier::ext_equal]
pub struct UserView {
    pub login: Seq<char>,
    pub html_url: Seq<char>,
}

impl View for User {
    type V = UserView;

    open spec fn view(&self) -> UserView {
        UserView { login: self.login@, html_url: self.html_url@ }
    }
}

/// The repository an event concerns.
pub struct Repository {
    pub name: String,
    pub full_name: String,
    pub html_url: String,
}

/// Spec-level view of [`Repository`].
#[verifier::ext_equal]
pub struct RepositoryView {
    pub name: Seq<char>,
    pub full_name: Seq<char>,
    pub html_url: Seq<char>,
}

impl View for Repository {
    type V = RepositoryView;

    open spec fn view(&self) -> RepositoryView {
        RepositoryView {
            name: self.name@,
            full_name: self.full_name@,
            html_url: self.html_url@,
        }
    }
}

/// A pull request, as carried in a `pull_request` event.
pub struct PullRequest {
    pub number: u64,
    pub title: String,
    pub html_url: String,
    pub state: String,
    pub user: User,
}

/// An issue, as carried in an `issues` event. It has the same shape as a
/// pull request, and the two share one view type.
pub struct Issue {
    pub number: u64,
    pub title: String,
    pub html_url: String,
    pub state: String,
    pub user: User,
}

/// Spec-level view shared by [`PullRequest`] and [`Issue`]: the two
/// sub-objects carry the same fields.
#[verifier::ext_equal]
pub struct ItemView {
    pub number: u64,
    pub title: Seq<char>,
    pub html_url: Seq<char>,
    pub state: Seq<char>,
    pub user: UserView,
}

impl View for PullRequest {
    type V = ItemView;

    open spec fn view(&self) -> ItemView {
        ItemView {
            number: self.number,
            title: self.title@,
            html_url: self.html_url@,
            state: self.state@,
            user: self.user@,
        }
    }
}

impl View for Issue {
    type V = ItemView;

    open spec fn view(&self) -> ItemView {
        ItemView {
            number: self.number,
            title: self.title@,
            html_url: self.html_url@,
            state: self.state@,
            user: self.user@,
        }
    }
}

/// The decoded event body. Absent fields decode to `None`; unknown fields
/// in the body are ignored.
pub struct Envelope {
    pub action: Option<String>,
    pub repository: Option<Repository>,
    pub sender: Option<User>,
    pub pull_request: Option<PullRequest>,
    pub issue: Option<Issue>,
}

/// Spec-level view of [`Envelope`].
#[verifier::ext_equal]
pub struct EnvelopeView {
    pub action: Option<Seq<char>>,
    pub repository: Option<RepositoryView>,
    pub sender: Option<UserView>,
    pub pull_request: Option<ItemView>,
    pub issue: Option<ItemView>,
}

impl View for Envelope {
    type V = EnvelopeView;

    open spec fn view(&self) -> EnvelopeView {
        EnvelopeView {
            action: match self.action {
                Some(ref a) => Some(a@),
                None => None,
            },
            repository: match self.repository {
                Some(ref r) => Some(r@),
                None => None,
            },
            sender: match self.sender {
                Some(ref s) => Some(s@),
                None => None,
            },
            pull_request: match self.pull_request {
                Some(ref p) => Some(p@),
                None => None,
            },
            issue: match self.issue {
                Some(ref i) => Some(i@),
                None => None,
            },
        }
    }
}

impl Envelope {
    /// An envelope with every field absent, as an all-unknown body decodes
    /// to.
    pub fn empty() -> (r: Envelope)
        ensures
            r@ == EnvelopeView::empty(),
    {
        Envelope { action: None, repository: None, sender: None, pull_request: None, issue: None }
    }
}

impl EnvelopeView {
    /// The view of an envelope with every field absent.
    pub open spec fn empty() -> EnvelopeView {
        EnvelopeView {
            action: None,
            repository: None,
            sender: None,
            pull_request: None,
            issue: None,
        }
    }
}

/// Failure of structural decoding: the body is not well-formed, or a field
/// that is present has an incompatible type.
#[derive(Clone, Copy, PartialEq, Eq, Debug, Structural)]
pub struct DecodeError;

} // verus!
