use vstd::prelude::*;
use vstd::string::StrSliceExecFns;

use crate::text::{
    chars_of, is_space, is_space_spec, lemma_trim_range,
    lemma_words_concat, lemma_words_trim, trim_range, trim_spec, words,
};

verus! {

/// The largest `j` in `[1, hi)` with a space at `t[j]`, or 0 when there is none.
pub open spec fn last_space_before(t: Seq<char>, hi: int) -> int
    decreases hi,
{
    if hi <= 1 {
        0
    } else if is_space_spec(t[hi - 1]) {
        hi - 1
    } else {
        last_space_before(t, hi - 1)
    }
}

/// The first `j >= lo` with a space at `t[j]`, or `t.len()` when there is none.
pub open spec fn next_space_from(t: Seq<char>, lo: int) -> int
    decreases t.len() - lo,
{
    if lo >= t.len() {
        t.len() as int
    } else if is_space_spec(t[lo]) {
        lo
    } else {
        next_space_from(t, lo + 1)
    }
}

/// Where the first chunk of `t` ends: all of `t` when it fits in `size`; else at the last
/// space inside the first `size` characters; else, when the first word is longer than that,
/// at the first space after them.
pub open spec fn chunk_end(t: Seq<char>, size: nat) -> int {
    if t.len() <= size {
        t.len() as int
    } else if last_space_before(t, size as int) > 0 {
        last_space_before(t, size as int)
    } else {
        next_space_from(t, size as int)
    }
}

/// The chunks of `t` for a target size of `size` characters: each piece cut off by
/// `chunk_end` and trimmed, with the pieces that hold only space left out.
pub open spec fn chunks_spec(t: Seq<char>, size: nat) -> Seq<Seq<char>>
    decreases t.len(),
    via chunks_decreases
{
    if t.len() == 0 || size == 0 {
        Seq::empty()
    } else {
        let e = chunk_end(t, size);
        let c = trim_spec(t.take(e));
        let rest = chunks_spec(t.skip(e), size);
        if c.len() == 0 {
            rest
        } else {
            seq![c] + rest
        }
    }
}

#[via_fn]
proof fn chunks_decreases(t: Seq<char>, size: nat) {
    if t.len() > 0 && size > 0 {
        lemma_chunk_end(t, size);
    }
}

/// The chunks joined by single spaces.
pub open spec fn join_spaced(cs: Seq<Seq<char>>) -> Seq<char>
    decreases cs.len(),
{
    if cs.len() == 0 {
        Seq::empty()
    } else if cs.len() == 1 {
        cs[0]
    } else {
        cs[0] + seq![' '] + join_spaced(cs.drop_first())
    }
}

proof fn lemma_last_space(t: Seq<char>, hi: int)
    requires
        hi <= t.len(),
    ensures
        0 <= last_space_before(t, hi) < hi || last_space_before(t, hi) == 0,
        last_space_before(t, hi) > 0 ==> is_space_spec(t[last_space_before(t, hi)]),
        forall|k: int|
            last_space_before(t, hi) < k < hi && 1 <= k ==> !is_space_spec(#[trigger] t[k]),
    decreases hi,
{
    if hi > 1 && !is_space_spec(t[hi - 1]) {
        lemma_last_space(t, hi - 1);
    }
}

proof fn lemma_next_space(t: Seq<char>, lo: int)
    requires
        0 <= lo,
    ensures
        lo <= next_space_from(t, lo) || (lo > t.len() && next_space_from(t, lo) == t.len()),
        next_space_from(t, lo) <= t.len(),
        next_space_from(t, lo) < t.len() ==> is_space_spec(t[next_space_from(t, lo)]),
        forall|k: int| lo <= k < next_space_from(t, lo) ==> !is_space_spec(#[trigger] t[k]),
    decreases t.len() - lo,
{
    if lo < t.len() && !is_space_spec(t[lo]) {
        lemma_next_space(t, lo + 1);
    }
}

pub proof fn lemma_chunk_end(t: Seq<char>, size: nat)
    requires
        t.len() > 0,
        size > 0,
    ensures
        1 <= chunk_end(t, size) <= t.len(),
        chunk_end(t, size) < t.len() ==> is_space_spec(t[chunk_end(t, size)]),
        chunk_end(t, size) > size ==> forall|k: int|
            1 <= k < chunk_end(t, size) ==> !is_space_spec(#[trigger] t[k]),
{
    if t.len() > size {
        lemma_last_space(t, size as int);
        lemma_next_space(t, size as int);
    }
}

/// Each chunk is trimmed text with at least one character, and is either at most `size`
/// characters long or a single word.
pub proof fn lemma_chunk_shape(t: Seq<char>, size: nat)
    requires
        t.len() > 0,
        size > 0,
    ensures
        trim_spec(t.take(chunk_end(t, size))).len() <= size || all_word(
            trim_spec(t.take(chunk_end(t, size))),
        ),
{
    lemma_chunk_end(t, size);
    let e = chunk_end(t, size);
    if e <= size {
        lemma_trim_len(t.take(e));
    } else {
        let a: int = if is_space_spec(t[0]) { 1 } else { 0 };
        assert(t.take(e).subrange(0, e) =~= t.take(e));
        assert(!is_space_spec(t.take(e)[e - 1]));
        lemma_trim_range(t.take(e), 0, a, e, e);
        assert forall|k: int| 0 <= k < e - a implies !is_space_spec(
            #[trigger] t.take(e).subrange(a, e)[k],
        ) by {
            assert(t.take(e).subrange(a, e)[k] == t[a + k]);
        }
    }
}

/// No character of `s` is white space.
pub open spec fn all_word(s: Seq<char>) -> bool {
    forall|k: int| 0 <= k < s.len() ==> !is_space_spec(#[trigger] s[k])
}

pub proof fn lemma_trim_len(s: Seq<char>)
    ensures
        trim_spec(s).len() <= s.len(),
    decreases s.len(),
{
    if s.len() > 0 && is_space_spec(s[0]) {
        lemma_trim_len(s.drop_first());
    } else if s.len() > 0 && is_space_spec(s.last()) {
        lemma_trim_len(s.drop_last());
    }
}

/// Splitting into chunks keeps the text's words: joining the chunks with single spaces
/// gives the same word sequence. No chunk is empty, and no chunk is longer than the target
/// size unless it is one word that alone exceeds it (so the chunk ends at the first space
/// after the target size).
pub proof fn lemma_chunks_keep_words(t: Seq<char>, size: nat)
    requires
        size > 0,
    ensures
        words(join_spaced(chunks_spec(t, size))) == words(t),
        forall|k: int| 0 <= k < chunks_spec(t, size).len() ==> (#[trigger] chunks_spec(t, size)[k]).len() > 0,
        forall|k: int|
            0 <= k < chunks_spec(t, size).len() ==> (#[trigger] chunks_spec(t, size)[k]).len()
                <= size || all_word(chunks_spec(t, size)[k]),
    decreases t.len(),
{
    if t.len() == 0 {
        assert(words(t) =~= Seq::<Seq<char>>::empty());
        assert(words(join_spaced(chunks_spec(t, size))) =~= Seq::<Seq<char>>::empty());
    } else {
        lemma_chunk_end(t, size);
        lemma_chunk_shape(t, size);
        let e = chunk_end(t, size);
        let head = t.take(e);
        let c = trim_spec(head);
        let tail = t.skip(e);
        let rest = chunks_spec(tail, size);
        lemma_chunks_keep_words(tail, size);
        assert(t =~= head + tail);
        if tail.len() > 0 {
            assert(tail[0] == t[e]);
        }
        lemma_words_concat(head, tail);
        lemma_words_trim(head);
        if c.len() == 0 {
            assert(words(c) =~= Seq::<Seq<char>>::empty());
            assert(words(t) =~= words(tail));
        } else {
            let all = chunks_spec(t, size);
            assert(all == seq![c] + rest);
            if rest.len() == 0 {
                assert(join_spaced(all) == c);
                assert(words(join_spaced(rest)) =~= Seq::<Seq<char>>::empty());
                assert(words(t) =~= words(c));
            } else {
                assert(all.drop_first() =~= rest);
                let sp = seq![' '];
                let jr = join_spaced(rest);
                assert(join_spaced(all) == c + sp + jr);
                assert(c + sp + jr =~= c + (sp + jr));
                lemma_words_concat(c, sp + jr);
                assert((sp + jr).drop_first() =~= jr);
                assert(words(sp + jr) == words(jr));
                assert(words(t) =~= words(c) + words(jr));
            }
            assert forall|k: int| 0 <= k < all.len() implies (#[trigger] all[k]).len() > 0 && (
            all[k].len() <= size || all_word(all[k])) by {
                if k > 0 {
                    assert(all[k] == rest[k - 1]);
                }
            }
        }
    }
}

/// Splits `text` into chunks of about `chunk_size` characters, cutting only at white space
/// so that no word is split, and trimming each chunk. A chunk ends at the last space within
/// its first `chunk_size` characters; a word longer than that is kept whole.
pub fn split_into_chunks(text: &str, chunk_size: usize) -> (r: Vec<&str>)
    requires
        chunk_size > 0,
    ensures
        r@.len() == chunks_spec(text@, chunk_size as nat).len(),
        forall|k: int| 0 <= k < r@.len() ==> (#[trigger] r@[k])@ == chunks_spec(text@, chunk_size as nat)[k],
{
    let v = chars_of(text);
    let n = v.len();
    let mut r: Vec<&str> = Vec::new();
    let mut start: usize = 0;
    let ghost done: Seq<Seq<char>> = Seq::empty();
    assert(v@.skip(0) =~= v@);
    while start < n
        invariant
            n == v.len(),
            v@ == text@,
            start <= n,
            chunk_size > 0,
            r@.len() == done.len(),
            forall|k: int| 0 <= k < r@.len() ==> (#[trigger] r@[k])@ == done[k],
            chunks_spec(text@, chunk_size as nat) == done + chunks_spec(v@.skip(start as int), chunk_size as nat),
        decreases n - start,
    {
        let ghost t = v@.skip(start as int);
        let end = chunk_end_at(&v, start, chunk_size);
        let (a, b) = trim_range(&v, start, end);
        proof {
            assert(t.take(end - start) =~= v@.subrange(start as int, end as int));
            assert(t.skip(end - start) =~= v@.skip(end as int));
        }
        if a < b {
            let piece = text.substring_char(a, b);
            r.push(piece);
            proof {
                done = done.push(v@.subrange(a as int, b as int));
                assert(chunks_spec(t, chunk_size as nat) == seq![v@.subrange(a as int, b as int)] + chunks_spec(v@.skip(end as int), chunk_size as nat));
                assert(chunks_spec(text@, chunk_size as nat) =~= done + chunks_spec(v@.skip(end as int), chunk_size as nat));
            }
        }
        start = end;
    }
    assert(v@.skip(n as int) =~= Seq::<char>::empty());
    assert(done + Seq::<Seq<char>>::empty() =~= done);
    r
}

/// The absolute index where the chunk that starts at `start` ends.
fn chunk_end_at(v: &Vec<char>, start: usize, size: usize) -> (e: usize)
    requires
        start < v.len(),
        size > 0,
    ensures
        start < e <= v.len(),
        e - start == chunk_end(v@.skip(start as int), size as nat),
{
    let ghost t = v@.skip(start as int);
    let n = v.len();
    if n - start <= size {
        return n;
    }
    // last space in t[1..size)
    let mut j: usize = size - 1;
    while j >= 1 && !is_space(v[start + j])
        invariant
            j < size,
            start + size < n == v.len(),
            t == v@.skip(start as int),
            last_space_before(t, size as int) == last_space_before(t, j + 1),
        decreases j,
    {
        j = j - 1;
    }
    if j >= 1 {
        assert(t[j as int] == v@[start + j]);
        return start + j;
    }
    assert(last_space_before(t, 1) == 0);
    let mut k: usize = start + size;
    while k < n && !is_space(v[k])
        invariant
            start + size <= k <= n == v.len(),
            t == v@.skip(start as int),
            next_space_from(t, size as int) == next_space_from(t, k - start),
        decreases n - k,
    {
        assert(t[k - start] == v@[k as int]);
        k = k + 1;
    }
    if k < n {
        assert(t[k - start] == v@[k as int]);
    }
    k
}

} // verus!
