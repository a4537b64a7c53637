//! Splitting a request path into its segments.
use vstd::prelude::*;

verus! {

/// `k` is the position of the first `'/'` in `s`.
pub open spec fn is_first_slash(s: Seq<char>, k: int) -> bool {
    &&& 0 <= k < s.len()
    &&& s[k] == '/'
    &&& forall|j: int| 0 <= j < k ==> s[j] != '/'
}

/// The position of the first `'/'` in `s` (meaningful when `s` holds one).
pub open spec fn first_slash(s: Seq<char>) -> int {
    choose|k: int| is_first_slash(s, k)
}

/// `s` cut at each `'/'` into at most `n` pieces, left to right, the last
/// piece keeping the rest of `s` whole (as `str::splitn(n, '/')` does).
pub open spec fn split_limited(s: Seq<char>, n: nat) -> Seq<Seq<char>>
    decreases n,
{
    if n <= 1 || !s.contains('/') {
        seq![s]
    } else {
        let k = first_slash(s);
        seq![s.take(k)].add(split_limited(s.skip(k + 1), (n - 1) as nat))
    }
}

/// The segments of a request path: what follows the first `'/'`, cut into
/// at most three pieces. A path without a `'/'` has none.
pub open spec fn segments(path: Seq<char>) -> Seq<Seq<char>> {
    split_limited(path, 4).drop_first()
}

/// The views of a vector of strings.
pub open spec fn views(v: Seq<String>) -> Seq<Seq<char>> {
    v.map_values(|s: String| s@)
}

proof fn lemma_first_slash(s: Seq<char>, k: int)
    requires
        is_first_slash(s, k),
    ensures
        first_slash(s) == k,
        s.contains('/'),
{
    let c = first_slash(s);
    assert(is_first_slash(s, c));
    if c < k {
        assert(s[c] != '/');
    } else if c > k {
        assert(s[k] != '/');
    }
}

/// Cutting `a`, which holds no `'/'`, followed by `'/'` and `b` gives `a` and
/// then the pieces of `b`.
pub proof fn lemma_split_after(a: Seq<char>, b: Seq<char>, n: nat)
    requires
        !a.contains('/'),
        n >= 2,
    ensures
        split_limited(a + seq!['/'] + b, n) == seq![a].add(split_limited(b, (n - 1) as nat)),
{
    let s = a + seq!['/'] + b;
    assert forall|j: int| 0 <= j < a.len() implies s[j] != '/' by {
        assert(s[j] == a[j]);
    }
    assert(s[a.len() as int] == '/');
    lemma_first_slash(s, a.len() as int);
    assert(s.take(a.len() as int) =~= a);
    assert(s.skip(a.len() as int + 1) =~= b);
}

/// Cuts `path` into its segments: at most three, the last one holding any
/// further `'/'`.
pub fn path_segments(path: &str) -> (r: Vec<String>)
    ensures
        views(r@) == segments(path@),
        r@.len() <= 3,
{
    let ghost s = path@;
    let n = path.unicode_len();
    let mut pieces: Vec<String> = Vec::new();
    let mut start: usize = 0;
    let mut i: usize = 0;
    assert(s.skip(0) =~= s);
    assert(views(pieces@).add(split_limited(s, 4)) =~= split_limited(s, 4));
    while i < n && pieces.len() < 3
        invariant
            n == s.len(),
            s == path@,
            start <= i <= n,
            pieces.len() <= 3,
            forall|j: int| start <= j < i ==> s[j] != '/',
            split_limited(s, 4) == views(pieces@).add(
                split_limited(s.skip(start as int), (4 - pieces.len()) as nat),
            ),
        decreases n - i,
    {
        if path.get_char(i) == '/' {
            let ghost rest = s.skip(start as int);
            proof {
                lemma_first_slash(rest, i - start);
                assert(rest.take(i - start) =~= s.subrange(start as int, i as int));
                assert(rest.skip(i - start + 1) =~= s.skip(i + 1));
            }
            let ghost before = pieces@;
            let piece = path.substring_char(start, i).to_owned();
            pieces.push(piece);
            assert(views(pieces@) =~= views(before).push(piece@));
            start = i + 1;
        }
        i = i + 1;
    }
    proof {
        let rest = s.skip(start as int);
        if pieces.len() < 3 {
            assert forall|j: int| 0 <= j < rest.len() implies rest[j] != '/' by {
                assert(rest[j] == s[start + j]);
            }
            assert(!rest.contains('/'));
        }
    }
    let ghost before = pieces@;
    let last = path.substring_char(start, n).to_owned();
    pieces.push(last);
    assert(views(pieces@) =~= views(before).push(last@));
    assert(views(pieces@) =~= split_limited(s, 4));
    let ghost all = pieces@;
    pieces.remove(0);
    assert(pieces@ =~= all.drop_first());
    assert(views(pieces@) =~= segments(s));
    pieces
}

} // verus!
