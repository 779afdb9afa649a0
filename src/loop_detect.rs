use vstd::prelude::*;

use crate::chunking::{all_word, join_spaced};
use crate::text::{chars_of, lemma_word_len_exact, lemma_words_concat, same_range, word_spans, words};

verus! {

/// Words in the phrase that a looping engine repeats.
pub const LOOP_PHRASE_WORDS: usize = 5;

/// Consecutive repetitions of one phrase that mark a loop.
pub const LOOP_MIN_REPEATS: usize = 5;

/// Starting at word `i`, the same phrase of `LOOP_PHRASE_WORDS` words comes
/// `LOOP_MIN_REPEATS` times in a row.
pub open spec fn repeats_at(w: Seq<Seq<char>>, i: int) -> bool {
    let span = (LOOP_PHRASE_WORDS * LOOP_MIN_REPEATS) as int;
    &&& 0 <= i
    &&& i + span <= w.len()
    &&& forall|k: int|
        0 <= k < span - LOOP_PHRASE_WORDS ==> #[trigger] w[i + k] == w[i + k + LOOP_PHRASE_WORDS]
}

/// Some phrase repeats often enough, somewhere in the word sequence.
pub open spec fn has_loop_words(w: Seq<Seq<char>>) -> bool {
    exists|i: int| repeats_at(w, i)
}

/// The text is degenerate engine output: a repeated phrase rather than speech.
pub open spec fn is_transcription_loop(text: Seq<char>) -> bool {
    has_loop_words(words(text))
}

/// Whether `text` holds the same five-word phrase five or more times in a row,
/// the mark of a speech engine looping on music, silence or noise.
pub fn has_transcription_loop(text: &str) -> (r: bool)
    ensures
        r == is_transcription_loop(text@),
{
    let v = chars_of(text);
    let spans = word_spans(&v);
    let ghost w = words(text@);
    let m = spans.len();
    let span = LOOP_PHRASE_WORDS * LOOP_MIN_REPEATS;
    if m < span {
        return false;
    }
    let mut i: usize = 0;
    while i <= m - span
        invariant
            m == spans.len() == w.len(),
            w == words(text@),
            span == 25,
            m >= span,
            w == crate::text::spans_view(v@, spans@),
            crate::text::spans_in_bounds(v.len() as int, spans@),
            forall|j: int| 0 <= j < i ==> !repeats_at(w, j),
        decreases m - span + 1 - i,
    {
        let mut k: usize = 0;
        let mut same = true;
        while k < span - LOOP_PHRASE_WORDS && same
            invariant
                m == spans.len() == w.len(),
                span == 25,
                i + span <= m,
                k <= span - LOOP_PHRASE_WORDS,
                w == crate::text::spans_view(v@, spans@),
                crate::text::spans_in_bounds(v.len() as int, spans@),
                same == forall|j: int| 0 <= j < k ==> #[trigger] w[i + j] == w[i + j + LOOP_PHRASE_WORDS],
            decreases span - k,
        {
            let a = spans[i + k];
            let b = spans[i + k + LOOP_PHRASE_WORDS];
            assert(w[i + k] == v@.subrange(a.0 as int, a.1 as int));
            assert(w[i + k + LOOP_PHRASE_WORDS] == v@.subrange(b.0 as int, b.1 as int));
            if !same_range(&v, a, b) {
                same = false;
            }
            k = k + 1;
        }
        if same {
            assert(repeats_at(w, i as int));
            return true;
        }
        i = i + 1;
    }
    false
}

/// `phrase` written `n` times in a row.
pub open spec fn repeated(phrase: Seq<Seq<char>>, n: nat) -> Seq<Seq<char>>
    decreases n,
{
    if n == 0 {
        Seq::empty()
    } else {
        phrase + repeated(phrase, (n - 1) as nat)
    }
}

/// Each item is a word: not empty, and free of white space.
pub open spec fn all_words(ws: Seq<Seq<char>>) -> bool {
    forall|k: int| 0 <= k < ws.len() ==> (#[trigger] ws[k]).len() > 0 && all_word(ws[k])
}

/// Words joined by single spaces split back into the same words.
pub proof fn lemma_words_of_joined(ws: Seq<Seq<char>>)
    requires
        all_words(ws),
    ensures
        words(join_spaced(ws)) == ws,
    decreases ws.len(),
{
    if ws.len() == 0 {
        assert(words(Seq::<char>::empty()) =~= ws);
    } else {
        let w = ws[0];
        assert(ws[0].len() > 0 && all_word(ws[0]));
        assert(!crate::text::is_space_spec(w[0]));
        assert(words(Seq::<char>::empty()) =~= Seq::<Seq<char>>::empty());
        lemma_word_len_exact(w, w.len() as int);
        assert(w.take(w.len() as int) =~= w);
        assert(w.skip(w.len() as int) =~= Seq::<char>::empty());
        assert(words(w) =~= seq![w]);
        if ws.len() == 1 {
            assert(ws =~= seq![w]);
        } else {
            let rest = ws.drop_first();
            assert(all_words(rest)) by {
                assert forall|k: int| 0 <= k < rest.len() implies (#[trigger] rest[k]).len() > 0
                    && all_word(rest[k]) by {
                    assert(rest[k] == ws[k + 1]);
                }
            }
            lemma_words_of_joined(rest);
            let sp = seq![' '];
            let jr = join_spaced(rest);
            assert(w + sp + jr =~= w + (sp + jr));
            lemma_words_concat(w, sp + jr);
            assert((sp + jr).drop_first() =~= jr);
            assert(words(sp + jr) == words(jr));
            assert(words(join_spaced(ws)) =~= seq![w] + rest);
            assert(seq![w] + rest =~= ws);
        }
    }
}

/// Fewer words than five times the phrase length never count as a loop.
pub proof fn lemma_short_text_never_loops(text: Seq<char>)
    requires
        words(text).len() < LOOP_PHRASE_WORDS * LOOP_MIN_REPEATS,
    ensures
        !is_transcription_loop(text),
{
}

/// A five-word phrase written five times in a row is a loop; written four times it is not.
pub proof fn lemma_repeated_phrase(phrase: Seq<Seq<char>>)
    requires
        phrase.len() == LOOP_PHRASE_WORDS,
        all_words(phrase),
    ensures
        is_transcription_loop(join_spaced(repeated(phrase, 5))),
        !is_transcription_loop(join_spaced(repeated(phrase, 4))),
{
    let p = phrase;
    reveal_with_fuel(repeated, 6);
    let w4 = repeated(p, 4);
    let w5 = repeated(p, 5);
    assert(w4 =~= p + (p + (p + p)));
    assert(w5 =~= p + w4);
    assert(w5 =~= w4 + p);
    assert(all_words(w4)) by {
        assert forall|k: int| 0 <= k < w4.len() implies (#[trigger] w4[k]).len() > 0 && all_word(w4[k]) by {
            if k < 5 { assert(w4[k] == p[k]); }
            else if k < 10 { assert(w4[k] == p[k - 5]); }
            else if k < 15 { assert(w4[k] == p[k - 10]); }
            else { assert(w4[k] == p[k - 15]); }
        }
    }
    assert(all_words(w5)) by {
        assert forall|k: int| 0 <= k < w5.len() implies (#[trigger] w5[k]).len() > 0 && all_word(w5[k]) by {
            if k < 5 { assert(w5[k] == p[k]); } else { assert(w5[k] == w4[k - 5]); }
        }
    }
    lemma_words_of_joined(w4);
    lemma_words_of_joined(w5);
    assert forall|k: int| 0 <= k < 20 implies #[trigger] w5[0 + k] == w5[0 + k + LOOP_PHRASE_WORDS] by {
        assert(w5[k] == w4[k]);
        assert(w5[k + 5] == w4[k]);
    }
    assert(repeats_at(w5, 0));
}

} // verus!
