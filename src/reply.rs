//! The response descriptor that routing produces: a status, a body and, for
//! a redirect, the destination.
use vstd::prelude::*;

verus! {

/// What is written back for one request.
pub struct Reply {
    pub status: u16,
    pub body: String,
    /// The `Location` header, set on a redirect only.
    pub location: Option<String>,
}

/// The mathematical value of a [`Reply`].
pub struct ReplyView {
    pub status: u16,
    pub body: Seq<char>,
    pub location: Option<Seq<char>>,
}

impl View for Reply {
    type V = ReplyView;

    open spec fn view(&self) -> ReplyView {
        ReplyView {
            status: self.status,
            body: self.body@,
            location: match self.location {
                Some(l) => Some(l@),
                None => None,
            },
        }
    }
}

/// A reply with the given status, no body and no redirect target.
pub open spec fn empty_view(status: u16) -> ReplyView {
    ReplyView { status, body: Seq::empty(), location: None }
}

/// A reply with the given status and plain-text body.
pub open spec fn text_view(status: u16, body: Seq<char>) -> ReplyView {
    ReplyView { status, body, location: None }
}

/// A `302` redirect to `location`, with no body.
pub open spec fn redirect_view(location: Seq<char>) -> ReplyView {
    ReplyView { status: 302, body: Seq::empty(), location: Some(location) }
}

impl Reply {
    /// A reply with `status` and an empty body.
    pub fn empty(status: u16) -> (r: Reply)
        ensures
            r@ == empty_view(status),
    {
        Reply { status, body: String::new(), location: None }
    }

    /// A reply with `status` and `body` as its plain-text body.
    pub fn text(status: u16, body: String) -> (r: Reply)
        ensures
            r@ == text_view(status, body@),
    {
        Reply { status, body, location: None }
    }

    /// A `302` redirect to `location`.
    pub fn redirect(location: String) -> (r: Reply)
        ensures
            r@ == redirect_view(location@),
    {
        Reply { status: 302, body: String::new(), location: Some(location) }
    }
}

} // verus!
