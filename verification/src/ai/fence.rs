//! Fenced JSON blocks in a reply of the assistant.
//!
//! The system prompt asks the model to put each action it takes in a block
//! that opens with `` ```json `` and closes with `` ``` ``. A block is what
//! the regular expression `` ```json\s*([\s\S]*?)\s*``` `` matches, searched
//! from the left with leftmost-first semantics, each search starting where
//! the previous match ended:
//! * it starts at the first `` ```json `` at or after the search position;
//! * its body starts after the white space that follows the opening marker;
//! * its body ends at the first position from which, after white space,
//!   a closing `` ``` `` follows;
//! * the block ends after that closing marker.
//! When the first opening marker has no closing marker after it, no later
//! one has either, and the search ends.

use vstd::prelude::*;
use crate::text::{is_space, is_space_char, occurs_at, occurs_at_exec};

verus! {

/// The opening marker `` ```json ``.
pub open spec fn open_marker() -> Seq<char> {
    seq!['`', '`', '`', 'j', 's', 'o', 'n']
}

/// The closing marker `` ``` ``.
pub open spec fn close_marker() -> Seq<char> {
    seq!['`', '`', '`']
}

/// The first position at or after `i` that does not hold white space.
pub open spec fn skip_space(s: Seq<char>, i: int) -> int
    decreases s.len() - i,
{
    if 0 <= i < s.len() && is_space(s[i]) {
        skip_space(s, i + 1)
    } else {
        i
    }
}

/// The first position at or after `i` at which `pat` occurs.
pub open spec fn find_from(s: Seq<char>, i: int, pat: Seq<char>) -> Option<int>
    decreases s.len() + 1 - i,
{
    if i < 0 || i > s.len() {
        None
    } else if occurs_at(s, i, pat) {
        Some(i)
    } else {
        find_from(s, i + 1, pat)
    }
}

/// Whether a body ending at `e` is followed, after white space, by the
/// closing marker.
pub open spec fn closes_at(s: Seq<char>, e: int) -> bool {
    occurs_at(s, skip_space(s, e), close_marker())
}

/// The first position at or after `e` at which a body can end.
pub open spec fn first_close(s: Seq<char>, e: int) -> Option<int>
    decreases s.len() + 1 - e,
{
    if e < 0 || e > s.len() {
        None
    } else if closes_at(s, e) {
        Some(e)
    } else {
        first_close(s, e + 1)
    }
}

/// The first block found by a search from `from`, as
/// `(start, body start, body end, end)`.
pub open spec fn fence_from(s: Seq<char>, from: int) -> Option<(int, int, int, int)> {
    match find_from(s, from, open_marker()) {
        None => None,
        Some(p) => {
            let g = skip_space(s, p + 7);
            match first_close(s, g) {
                None => None,
                Some(e) => Some((p, g, e, skip_space(s, e) + 3)),
            }
        },
    }
}

/// All blocks found by searches from `from` on, in order.
pub open spec fn fences_from(s: Seq<char>, from: int) -> Seq<(int, int, int, int)>
    decreases s.len() + 1 - from,
{
    if from < 0 || from > s.len() {
        seq![]
    } else {
        match fence_from(s, from) {
            None => seq![],
            Some(f) => if from < f.3 <= s.len() {
                seq![f] + fences_from(s, f.3)
            } else {
                seq![]
            },
        }
    }
}

/// All blocks of `s`, in order.
pub open spec fn fences(s: Seq<char>) -> Seq<(int, int, int, int)> {
    fences_from(s, 0)
}

/// A block found in a text.
#[derive(Debug, Clone, Copy)]
pub struct Fence {
    /// Position of the opening marker.
    pub start: usize,
    /// Position where the body starts.
    pub inner_start: usize,
    /// Position where the body ends.
    pub inner_end: usize,
    /// Position just after the closing marker.
    pub end: usize,
}

/// Whether the positions of a block are in order and inside a text of
/// length `len`.
pub open spec fn fence_in(f: Fence, len: int) -> bool {
    f.start + 7 <= f.inner_start <= f.inner_end && f.inner_end + 3 <= f.end <= len
}

/// The positions of a block.
pub open spec fn span(f: Fence) -> (int, int, int, int) {
    (f.start as int, f.inner_start as int, f.inner_end as int, f.end as int)
}

/// The positions of a sequence of blocks.
pub open spec fn spans(v: Seq<Fence>) -> Seq<(int, int, int, int)> {
    v.map_values(|f: Fence| span(f))
}

proof fn lemma_skip_space(s: Seq<char>, i: int)
    requires
        0 <= i <= s.len(),
    ensures
        i <= skip_space(s, i) <= s.len(),
        skip_space(s, i) < s.len() ==> !is_space(s[skip_space(s, i)]),
        forall|k: int| i <= k < skip_space(s, i) ==> is_space(#[trigger] s[k]),
    decreases s.len() - i,
{
    if i < s.len() && is_space(s[i]) {
        lemma_skip_space(s, i + 1);
    }
}

proof fn lemma_find_from(s: Seq<char>, i: int, pat: Seq<char>)
    ensures
        find_from(s, i, pat) matches Some(p) ==> i <= p && occurs_at(s, p, pat),
    decreases s.len() + 1 - i,
{
    if 0 <= i <= s.len() && !occurs_at(s, i, pat) {
        lemma_find_from(s, i + 1, pat);
    }
}

proof fn lemma_first_close(s: Seq<char>, e: int)
    ensures
        first_close(s, e) matches Some(x) ==> e <= x && closes_at(s, x) && 0 <= x <= s.len(),
    decreases s.len() + 1 - e,
{
    if 0 <= e <= s.len() && !closes_at(s, e) {
        lemma_first_close(s, e + 1);
    }
}

proof fn lemma_first_close_minimal(s: Seq<char>, e: int)
    ensures
        first_close(s, e) matches Some(x) ==> forall|k: int| e <= k < x ==> !closes_at(s, k),
    decreases s.len() + 1 - e,
{
    if 0 <= e <= s.len() && !closes_at(s, e) {
        lemma_first_close_minimal(s, e + 1);
    }
}

/// The shape of a block: the opening marker, white space, a body that
/// neither starts nor ends with white space, white space, and the closing
/// marker.
pub proof fn lemma_fence_shape(s: Seq<char>, from: int)
    requires
        0 <= from <= s.len(),
    ensures
        fence_from(s, from) matches Some(f) ==> {
            &&& occurs_at(s, f.0, open_marker())
            &&& occurs_at(s, f.3 - 3, close_marker())
            &&& forall|k: int| f.0 + 7 <= k < f.1 ==> is_space(#[trigger] s[k])
            &&& forall|k: int| f.2 <= k < f.3 - 3 ==> is_space(#[trigger] s[k])
            &&& f.1 < f.2 ==> !is_space(s[f.1]) && !is_space(s[f.2 - 1])
        },
{
    lemma_fence_bounds(s, from);
    lemma_find_from(s, from, open_marker());
    if let Some(p) = find_from(s, from, open_marker()) {
        lemma_skip_space(s, p + 7);
        let g = skip_space(s, p + 7);
        lemma_first_close(s, g);
        lemma_first_close_minimal(s, g);
        if let Some(e) = first_close(s, g) {
            lemma_skip_space(s, e);
            if g < e && is_space(s[e - 1]) {
                assert(skip_space(s, e - 1) == skip_space(s, e));
                assert(closes_at(s, e - 1));
            }
        }
    }
}

/// The positions of a block are in order and inside the text.
pub proof fn lemma_fence_bounds(s: Seq<char>, from: int)
    requires
        0 <= from <= s.len(),
    ensures
        fence_from(s, from) matches Some(f) ==> from <= f.0 && f.0 + 7 <= f.1 <= f.2 && f.2 + 3
            <= f.3 <= s.len() && occurs_at(s, f.0, open_marker()) && occurs_at(
            s,
            f.3 - 3,
            close_marker(),
        ),
{
    lemma_find_from(s, from, open_marker());
    if let Some(p) = find_from(s, from, open_marker()) {
        lemma_skip_space(s, p + 7);
        let g = skip_space(s, p + 7);
        lemma_first_close(s, g);
        if let Some(e) = first_close(s, g) {
            lemma_skip_space(s, e);
        }
    }
}

/// The first position at or after `i` that does not hold white space.
fn skip_space_exec(s: &Vec<char>, i: usize) -> (r: usize)
    requires
        i <= s@.len(),
    ensures
        r == skip_space(s@, i as int),
        i <= r <= s@.len(),
{
    let n = s.len();
    let mut j = i;
    while j < n && is_space_char(s[j])
        invariant
            n == s@.len(),
            i <= j <= n,
            skip_space(s@, i as int) == skip_space(s@, j as int),
        decreases n - j,
    {
        j = j + 1;
    }
    j
}

/// The first position at or after `i` at which `pat` occurs.
fn find_from_exec(s: &Vec<char>, i: usize, pat: &Vec<char>) -> (r: Option<usize>)
    requires
        i <= s@.len(),
    ensures
        match r {
            Some(p) => find_from(s@, i as int, pat@) == Some(p as int),
            None => find_from(s@, i as int, pat@) is None,
        },
{
    let n = s.len();
    let mut j = i;
    loop
        invariant
            n == s@.len(),
            i <= j <= n,
            find_from(s@, i as int, pat@) == find_from(s@, j as int, pat@),
        decreases n - j,
    {
        if occurs_at_exec(s, j, pat) {
            return Some(j);
        }
        if j == n {
            assert(find_from(s@, j + 1, pat@) is None);
            return None;
        }
        j = j + 1;
    }
}

/// Whether a body ending at `e` is followed by the closing marker.
fn closes_at_exec(s: &Vec<char>, e: usize, close: &Vec<char>) -> (r: bool)
    requires
        e <= s@.len(),
        close@ == close_marker(),
    ensures
        r == closes_at(s@, e as int),
{
    let k = skip_space_exec(s, e);
    occurs_at_exec(s, k, close)
}

/// The first position at or after `e` at which a body can end.
fn first_close_exec(s: &Vec<char>, e: usize, close: &Vec<char>) -> (r: Option<usize>)
    requires
        e <= s@.len(),
        close@ == close_marker(),
    ensures
        match r {
            Some(x) => first_close(s@, e as int) == Some(x as int),
            None => first_close(s@, e as int) is None,
        },
{
    let n = s.len();
    let mut j = e;
    loop
        invariant
            n == s@.len(),
            e <= j <= n,
            close@ == close_marker(),
            first_close(s@, e as int) == first_close(s@, j as int),
        decreases n - j,
    {
        if closes_at_exec(s, j, close) {
            return Some(j);
        }
        if j == n {
            assert(first_close(s@, j + 1) is None);
            return None;
        }
        j = j + 1;
    }
}

/// The first block found by a search from `from`.
fn fence_from_exec(s: &Vec<char>, from: usize, open: &Vec<char>, close: &Vec<char>) -> (r: Option<
    Fence,
>)
    requires
        from <= s@.len(),
        open@ == open_marker(),
        close@ == close_marker(),
    ensures
        match r {
            Some(f) => fence_from(s@, from as int) == Some(span(f)),
            None => fence_from(s@, from as int) is None,
        },
{
    proof {
        lemma_find_from(s@, from as int, open_marker());
    }
    match find_from_exec(s, from, open) {
        None => None,
        Some(p) => {
            assert(occurs_at(s@, p as int, open_marker()));
            assert(open_marker().len() == 7);
            assert(p + 7 <= s.len());
            let g = skip_space_exec(s, p + 7);
            proof {
                lemma_first_close(s@, g as int);
            }
            match first_close_exec(s, g, close) {
                None => None,
                Some(e) => {
                    let c = skip_space_exec(s, e);
                    proof {
                        lemma_skip_space(s@, e as int);
                        assert(closes_at(s@, e as int));
                        assert(close_marker().len() == 3);
                        assert(c + 3 <= s.len());
                    }
                    Some(Fence { start: p, inner_start: g, inner_end: e, end: c + 3 })
                },
            }
        },
    }
}

/// The opening marker as characters.
fn open_chars() -> (r: Vec<char>)
    ensures
        r@ == open_marker(),
{
    let r = vec!['`', '`', '`', 'j', 's', 'o', 'n'];
    assert(r@ =~= open_marker());
    r
}

/// The closing marker as characters.
fn close_chars() -> (r: Vec<char>)
    ensures
        r@ == close_marker(),
{
    let r = vec!['`', '`', '`'];
    assert(r@ =~= close_marker());
    r
}

/// All fenced JSON blocks of `s`, in order.
pub fn find_fences(s: &Vec<char>) -> (r: Vec<Fence>)
    ensures
        spans(r@) == fences(s@),
        forall|i: int| 0 <= i < r@.len() ==> fence_in(#[trigger] r@[i], s@.len() as int),
{
    let open = open_chars();
    let close = close_chars();
    let n = s.len();
    let mut out: Vec<Fence> = Vec::new();
    let mut from: usize = 0;
    loop
        invariant
            n == s@.len(),
            from <= n,
            open@ == open_marker(),
            close@ == close_marker(),
            fences(s@) == spans(out@) + fences_from(s@, from as int),
            forall|i: int| 0 <= i < out@.len() ==> fence_in(#[trigger] out@[i], s@.len() as int),
        decreases n - from,
    {
        proof {
            lemma_fence_bounds(s@, from as int);
        }
        match fence_from_exec(s, from, &open, &close) {
            None => {
                assert(spans(out@) + fences_from(s@, from as int) =~= spans(out@));
                return out;
            },
            Some(f) => {
                assert(spans(out@.push(f)) =~= spans(out@).push(span(f)));
                assert(fences_from(s@, from as int) =~= seq![span(f)] + fences_from(
                    s@,
                    f.end as int,
                ));
                assert(spans(out@) + fences_from(s@, from as int) =~= spans(out@.push(f))
                    + fences_from(s@, f.end as int));
                out.push(f);
                from = f.end;
            },
        }
    }
}

} // verus!
