//! Turning a request path into an operation on the registry, and the
//! operation's outcome into a reply.
use crate::decimal::{decimal, decimal_string};
use crate::path::{lemma_split_after, path_segments, segments, split_limited, views};
use crate::record::Data;
use crate::registry::Registry;
use crate::reply::{empty_view, redirect_view, text_view, Reply, ReplyView};
use std::sync::Arc;
use vstd::prelude::*;

verus! {

/// What a request path asks for.
pub enum Action {
    /// Store `location` under `slug` (`/i/{slug}/{location}`).
    Register { slug: String, location: String },
    /// Report the visit count of `slug` (`/v/{slug}`).
    Count { slug: String },
    /// Redirect to the destination of `slug`, counting the visit (`/{slug}`).
    Redirect { slug: String },
    /// Answer at once with this reply, touching nothing.
    Reject(Reply),
}

/// The mathematical value of an [`Action`].
pub enum ActionView {
    Register { slug: Seq<char>, location: Seq<char> },
    Count { slug: Seq<char> },
    Redirect { slug: Seq<char> },
    Reject(ReplyView),
}

impl View for Action {
    type V = ActionView;

    open spec fn view(&self) -> ActionView {
        match self {
            Action::Register { slug, location } => ActionView::Register {
                slug: slug@,
                location: location@,
            },
            Action::Count { slug } => ActionView::Count { slug: slug@ },
            Action::Redirect { slug } => ActionView::Redirect { slug: slug@ },
            Action::Reject(r) => ActionView::Reject(r@),
        }
    }
}

/// The body of the reply to a register or count request without a slug.
pub open spec fn slug_missing() -> Seq<char> {
    "slug not provided"@
}

/// The body of the reply to a register request without a location.
pub open spec fn location_missing() -> Seq<char> {
    "location not provided"@
}

/// The operation that `path` asks for. The first segment names the
/// operation: `i` registers, `v` counts, and any other value is itself the
/// slug to redirect to.
pub open spec fn action_of(path: Seq<char>) -> ActionView {
    let segs = segments(path);
    if segs.len() == 0 {
        ActionView::Reject(empty_view(404))
    } else if segs[0] == seq!['i'] {
        if segs.len() < 2 {
            ActionView::Reject(text_view(400, slug_missing()))
        } else if segs.len() < 3 {
            ActionView::Reject(text_view(400, location_missing()))
        } else {
            ActionView::Register { slug: segs[1], location: segs[2] }
        }
    } else if segs[0] == seq!['v'] {
        if segs.len() < 2 {
            ActionView::Reject(text_view(400, slug_missing()))
        } else {
            ActionView::Count { slug: segs[1] }
        }
    } else {
        ActionView::Redirect { slug: segs[0] }
    }
}

/// The reply to a count request: the count in decimal, or `404` where the
/// slug was not found.
pub open spec fn count_view(visits: Option<u64>) -> ReplyView {
    match visits {
        Some(n) => text_view(200, decimal(n as nat)),
        None => empty_view(404),
    }
}

/// A slug named `i` or `v` can never be redirected to: such a first segment
/// always names an operation.
pub proof fn lemma_operator_names_never_redirect(path: Seq<char>)
    ensures
        action_of(path) matches ActionView::Redirect { slug } ==> slug != seq!['i'] && slug
            != seq!['v'],
{
}

/// A registration path `/i/{slug}/{location}` asks to store exactly that
/// location under exactly that slug, for every slug without a `'/'`; the
/// location is taken whole, `'/'` included.
pub proof fn lemma_register_path(slug: Seq<char>, location: Seq<char>)
    requires
        !slug.contains('/'),
    ensures
        action_of(seq!['/', 'i', '/'] + slug + seq!['/'] + location) == (ActionView::Register {
            slug,
            location,
        }),
{
    let empty = Seq::<char>::empty();
    let op = seq!['i'];
    assert(!empty.contains('/'));
    assert(!op.contains('/')) by {
        assert(op[0] != '/');
    }
    let tail = slug + seq!['/'] + location;
    let rest = op + seq!['/'] + tail;
    assert(seq!['/', 'i', '/'] + slug + seq!['/'] + location =~= empty + seq!['/'] + rest);
    lemma_split_after(empty, rest, 4);
    lemma_split_after(op, tail, 3);
    lemma_split_after(slug, location, 2);
    assert(segments(empty + seq!['/'] + rest) =~= seq![op, slug, location]);
}

/// A count path `/v/{slug}` asks for the count of exactly that slug, for
/// every slug without a `'/'`.
pub proof fn lemma_count_path(slug: Seq<char>)
    requires
        !slug.contains('/'),
    ensures
        action_of(seq!['/', 'v', '/'] + slug) == (ActionView::Count { slug }),
{
    let empty = Seq::<char>::empty();
    let op = seq!['v'];
    assert(!empty.contains('/'));
    assert(!op.contains('/')) by {
        assert(op[0] != '/');
    }
    let rest = op + seq!['/'] + slug;
    assert(seq!['/', 'v', '/'] + slug =~= empty + seq!['/'] + rest);
    lemma_split_after(empty, rest, 4);
    lemma_split_after(op, slug, 3);
    assert(split_limited(slug, 2) == seq![slug]);
    assert(segments(empty + seq!['/'] + rest) =~= seq![op, slug]);
    assert(op != seq!['i']) by {
        assert(op[0] != seq!['i'][0]);
    }
}

/// A visit path `/{slug}` asks for a redirect to exactly that slug, for every
/// slug without a `'/'` other than the operation names `i` and `v`.
pub proof fn lemma_redirect_path(slug: Seq<char>)
    requires
        !slug.contains('/'),
        slug != seq!['i'],
        slug != seq!['v'],
    ensures
        action_of(seq!['/'] + slug) == (ActionView::Redirect { slug }),
{
    let empty = Seq::<char>::empty();
    assert(!empty.contains('/'));
    assert(seq!['/'] + slug =~= empty + seq!['/'] + slug);
    lemma_split_after(empty, slug, 4);
    assert(segments(empty + seq!['/'] + slug) =~= seq![slug]);
}

fn is_single(s: &String, c: char) -> (r: bool)
    ensures
        r == (s@ == seq![c]),
{
    let n = s.as_str().unicode_len();
    if n != 1 {
        assert(s@.len() != 1);
        false
    } else {
        let first = s.as_str().get_char(0);
        if first == c {
            assert(s@ =~= seq![c]);
        }
        first == c
    }
}

/// Reads the operation that `path` asks for.
pub fn parse(path: &str) -> (a: Action)
    ensures
        a@ == action_of(path@),
{
    let segs = path_segments(path);
    proof {
        assert(views(segs@).len() == segs@.len());
    }
    if segs.len() == 0 {
        return Action::Reject(Reply::empty(404));
    }
    assert(views(segs@)[0] == segs@[0]@);
    if is_single(&segs[0], 'i') {
        if segs.len() < 2 {
            Action::Reject(Reply::text(400, String::from_str("slug not provided")))
        } else if segs.len() < 3 {
            Action::Reject(Reply::text(400, String::from_str("location not provided")))
        } else {
            assert(views(segs@)[1] == segs@[1]@);
            assert(views(segs@)[2] == segs@[2]@);
            Action::Register { slug: segs[1].clone(), location: segs[2].clone() }
        }
    } else if is_single(&segs[0], 'v') {
        if segs.len() < 2 {
            Action::Reject(Reply::text(400, String::from_str("slug not provided")))
        } else {
            assert(views(segs@)[1] == segs@[1]@);
            Action::Count { slug: segs[1].clone() }
        }
    } else {
        Action::Redirect { slug: segs[0].clone() }
    }
}

/// The reply to a count request, given the count found (`None` where the
/// slug is not registered).
pub fn count_reply(visits: Option<u64>) -> (r: Reply)
    ensures
        r@ == count_view(visits),
{
    match visits {
        Some(n) => Reply::text(200, decimal_string(n)),
        None => Reply::empty(404),
    }
}

/// The reply to a redirect request, given the record found (`None` where the
/// slug is not registered). The visit is counted on that same record, so the
/// destination and the count always belong to one record, even where the
/// slug is registered anew meanwhile.
pub fn visit_reply(found: Option<Arc<Data>>) -> (r: Reply)
    ensures
        r@ == match found {
            Some(d) => redirect_view(d.location@),
            None => empty_view(404),
        },
{
    match found {
        Some(record) => {
            record.visit();
            Reply::redirect(record.location.clone())
        },
        None => Reply::empty(404),
    }
}

/// Serves one request for `path` against `registry`.
///
/// Whatever the registry holds at that moment, the reply is the one that
/// [`action_of`] gives for a malformed path, `200` for a registration, a
/// decimal count or `404` for a count, and a redirect or `404` for a visit.
pub fn handle_request(registry: &Registry, path: &str) -> (r: Reply)
    ensures
        match action_of(path@) {
            ActionView::Reject(v) => r@ == v,
            ActionView::Register { .. } => r@ == empty_view(200),
            ActionView::Count { .. } => exists|visits: Option<u64>| r@ == count_view(visits),
            ActionView::Redirect { .. } => r@ == empty_view(404) || exists|l: Seq<char>|
                r@ == redirect_view(l),
        },
{
    match parse(path) {
        Action::Register { slug, location } => {
            registry.insert(slug.as_str(), location.as_str());
            Reply::empty(200)
        },
        Action::Count { slug } => {
            let visits = match registry.get(slug.as_str()) {
                Some(record) => Some(record.visits()),
                None => None,
            };
            count_reply(visits)
        },
        Action::Redirect { slug } => {
            let found = registry.get(slug.as_str());
            visit_reply(found)
        },
        Action::Reject(reply) => reply,
    }
}

} // verus!
