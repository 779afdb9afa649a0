use vstd::prelude::*;
use vstd::std_specs::iter::IteratorSpec;
use vstd::string::StrSliceExecFns;

verus! {

broadcast use vstd::string::group_string_axioms;

/// Whether `c` is a white-space character in the Unicode sense.
pub open spec fn is_space_spec(c: char) -> bool {
    ('\u{9}' <= c && c <= '\u{d}') || c == ' ' || c == '\u{85}' || c == '\u{a0}' || c == '\u{1680}'
        || ('\u{2000}' <= c && c <= '\u{200a}') || c == '\u{2028}' || c == '\u{2029}'
        || c == '\u{202f}' || c == '\u{205f}' || c == '\u{3000}'
}

pub fn is_space(c: char) -> (r: bool)
    ensures
        r == is_space_spec(c),
{
    ('\u{9}' <= c && c <= '\u{d}') || c == ' ' || c == '\u{85}' || c == '\u{a0}' || c == '\u{1680}'
        || ('\u{2000}' <= c && c <= '\u{200a}') || c == '\u{2028}' || c == '\u{2029}'
        || c == '\u{202f}' || c == '\u{205f}' || c == '\u{3000}'
}


/// The characters of `s`, in order.
pub fn chars_of(s: &str) -> (r: Vec<char>)
    ensures
        r@ == s@,
{
    let mut r: Vec<char> = Vec::new();
    let mut it = s.chars();
    loop
        invariant
            it.obeys_prophetic_iter_laws(),
            it.decrease() is Some,
            r@ + it.remaining() == s@,
        ensures
            r@ == s@,
        decreases it.decrease()->0,
    {
        match it.next() {
            Some(c) => {
                r.push(c);
            },
            None => {
                assert(r@ + it.remaining() =~= r@);
                break;
            },
        }
    }
    r
}


/// `s` without its leading and trailing white space.
pub open spec fn trim_spec(s: Seq<char>) -> Seq<char>
    decreases s.len(),
{
    if s.len() > 0 && is_space_spec(s[0]) {
        trim_spec(s.drop_first())
    } else if s.len() > 0 && is_space_spec(s.last()) {
        trim_spec(s.drop_last())
    } else {
        s
    }
}

/// Every character of `s` in `[lo, hi)` is white space.
pub open spec fn all_space(s: Seq<char>, lo: int, hi: int) -> bool {
    forall|i: int| lo <= i < hi ==> is_space_spec(#[trigger] s[i])
}

/// Length of the run of non-space characters that starts `s`.
pub open spec fn word_len(s: Seq<char>) -> nat
    decreases s.len(),
{
    if s.len() == 0 || is_space_spec(s[0]) {
        0
    } else {
        1 + word_len(s.drop_first())
    }
}

/// The maximal runs of non-space characters of `s`, in order.
pub open spec fn words(s: Seq<char>) -> Seq<Seq<char>>
    decreases s.len(),
    via words_decreases
{
    if s.len() == 0 {
        Seq::empty()
    } else if is_space_spec(s[0]) {
        words(s.drop_first())
    } else {
        seq![s.take(word_len(s) as int)] + words(s.skip(word_len(s) as int))
    }
}

#[via_fn]
proof fn words_decreases(s: Seq<char>) {
    if s.len() > 0 && !is_space_spec(s[0]) {
        lemma_word_len(s);
    }
}

pub proof fn lemma_word_len(s: Seq<char>)
    ensures
        word_len(s) <= s.len(),
        forall|i: int| 0 <= i < word_len(s) ==> !is_space_spec(#[trigger] s[i]),
        word_len(s) < s.len() ==> is_space_spec(s[word_len(s) as int]),
    decreases s.len(),
{
    if s.len() > 0 && !is_space_spec(s[0]) {
        lemma_word_len(s.drop_first());
        assert forall|i: int| 0 <= i < word_len(s) implies !is_space_spec(#[trigger] s[i]) by {
            if i > 0 {
                assert(s[i] == s.drop_first()[i - 1]);
            }
        }
    }
}

/// A run of `k` non-space characters followed by a space, or by the end, is the first word.
pub proof fn lemma_word_len_exact(s: Seq<char>, k: int)
    requires
        0 <= k <= s.len(),
        forall|i: int| 0 <= i < k ==> !is_space_spec(#[trigger] s[i]),
        k < s.len() ==> is_space_spec(s[k]),
    ensures
        word_len(s) == k,
    decreases k,
{
    if k > 0 {
        assert forall|i: int| 0 <= i < k - 1 implies !is_space_spec(#[trigger] s.drop_first()[i]) by {
            assert(s.drop_first()[i] == s[i + 1]);
        }
        lemma_word_len_exact(s.drop_first(), k - 1);
    }
}

pub proof fn lemma_trim_range(s: Seq<char>, lo: int, a: int, b: int, hi: int)
    requires
        0 <= lo <= a <= b <= hi <= s.len(),
        all_space(s, lo, a),
        all_space(s, b, hi),
        a < b ==> !is_space_spec(s[a]) && !is_space_spec(s[b - 1]),
    ensures
        trim_spec(s.subrange(lo, hi)) == s.subrange(a, b),
    decreases (a - lo) + (hi - b),
{
    let t = s.subrange(lo, hi);
    if lo < a {
        assert(t.drop_first() =~= s.subrange(lo + 1, hi));
        lemma_trim_range(s, lo + 1, a, b, hi);
    } else if b < hi {
        if a == b {
            assert(t.drop_first() =~= s.subrange(lo + 1, hi));
            lemma_trim_range(s, lo + 1, lo + 1, lo + 1, hi);
            assert(s.subrange(lo + 1, lo + 1) =~= s.subrange(a, b));
        } else {
            assert(t.drop_last() =~= s.subrange(lo, hi - 1));
            lemma_trim_range(s, lo, a, b, hi - 1);
        }
    }
}

/// Words never straddle a space, so cutting at one splits the word sequence.
pub proof fn lemma_words_concat(a: Seq<char>, b: Seq<char>)
    requires
        a.len() == 0 || b.len() == 0 || is_space_spec(a.last()) || is_space_spec(b[0]),
    ensures
        words(a + b) == words(a) + words(b),
    decreases a.len(),
{
    if a.len() == 0 {
        assert(a + b =~= b);
        assert(words(a) + words(b) =~= words(b));
    } else if b.len() == 0 {
        assert(a + b =~= a);
        assert(words(a) + words(b) =~= words(a));
    } else if is_space_spec(a[0]) {
        assert((a + b).drop_first() =~= a.drop_first() + b);
        lemma_words_concat(a.drop_first(), b);
    } else {
        lemma_word_len(a);
        let w = word_len(a) as int;
        lemma_word_len_exact(a + b, w);
        assert((a + b).take(w) =~= a.take(w));
        assert((a + b).skip(w) =~= a.skip(w) + b);
        if w < a.len() {
            assert(a.skip(w).last() == a.last());
        }
        lemma_words_concat(a.skip(w), b);
        assert(words(a + b) =~= words(a) + words(b));
    }
}

pub proof fn lemma_words_all_space(s: Seq<char>)
    requires
        all_space(s, 0, s.len() as int),
    ensures
        words(s) == Seq::<Seq<char>>::empty(),
    decreases s.len(),
{
    if s.len() > 0 {
        assert(all_space(s.drop_first(), 0, s.drop_first().len() as int)) by {
            assert forall|i: int| 0 <= i < s.drop_first().len() implies is_space_spec(
                #[trigger] s.drop_first()[i],
            ) by {
                assert(s.drop_first()[i] == s[i + 1]);
            }
        }
        lemma_words_all_space(s.drop_first());
    }
}

/// Trimming keeps the words.
pub proof fn lemma_words_trim(s: Seq<char>)
    ensures
        words(trim_spec(s)) == words(s),
    decreases s.len(),
{
    if s.len() > 0 && is_space_spec(s[0]) {
        lemma_words_trim(s.drop_first());
    } else if s.len() > 0 && is_space_spec(s.last()) {
        let l = seq![s.last()];
        assert(s =~= s.drop_last() + l);
        lemma_words_concat(s.drop_last(), l);
        lemma_words_all_space(l);
        assert(words(s.drop_last()) + words(l) =~= words(s.drop_last()));
        lemma_words_trim(s.drop_last());
    }
}


/// The bounds of `v[lo..hi]` once its leading and trailing white space is removed.
pub fn trim_range(v: &Vec<char>, lo: usize, hi: usize) -> (r: (usize, usize))
    requires
        lo <= hi <= v.len(),
    ensures
        lo <= r.0 <= r.1 <= hi,
        trim_spec(v@.subrange(lo as int, hi as int)) == v@.subrange(r.0 as int, r.1 as int),
        all_space(v@, lo as int, r.0 as int),
        all_space(v@, r.1 as int, hi as int),
{
    let mut a: usize = lo;
    while a < hi && is_space(v[a])
        invariant
            lo <= a <= hi <= v.len(),
            all_space(v@, lo as int, a as int),
        decreases hi - a,
    {
        a = a + 1;
    }
    let mut b: usize = hi;
    while b > a && is_space(v[b - 1])
        invariant
            lo <= a <= b <= hi <= v.len(),
            all_space(v@, b as int, hi as int),
        decreases b - a,
    {
        b = b - 1;
    }
    proof {
        lemma_trim_range(v@, lo as int, a as int, b as int, hi as int);
    }
    (a, b)
}

/// `s` without its leading and trailing white space.
pub fn trim(s: &str) -> (r: &str)
    ensures
        r@ == trim_spec(s@),
{
    let v = chars_of(s);
    let (a, b) = trim_range(&v, 0, v.len());
    proof {
        assert(v@.subrange(0, v@.len() as int) =~= v@);
    }
    s.substring_char(a, b)
}

/// Relies on `String::push`: appends one character.
#[verifier::external_body]
pub(crate) fn push_char(s: &mut String, c: char)
    ensures
        final(s)@ == old(s)@.push(c),
{
    s.push(c)
}

/// A new string holding the characters `v[lo..hi]`.
pub fn string_of_range(v: &Vec<char>, lo: usize, hi: usize) -> (r: String)
    requires
        lo <= hi <= v.len(),
    ensures
        r@ == v@.subrange(lo as int, hi as int),
{
    let mut r = String::new();
    let mut i: usize = lo;
    while i < hi
        invariant
            lo <= i <= hi <= v.len(),
            r@ == v@.subrange(lo as int, i as int),
        decreases hi - i,
    {
        push_char(&mut r, v[i]);
        assert(v@.subrange(lo as int, i + 1) =~= v@.subrange(lo as int, i as int).push(v@[i as int]));
        i = i + 1;
    }
    r
}

/// The words of `v@`, given by their bounds in `v`.
pub open spec fn spans_view(v: Seq<char>, spans: Seq<(usize, usize)>) -> Seq<Seq<char>> {
    Seq::new(spans.len(), |k: int| v.subrange(spans[k].0 as int, spans[k].1 as int))
}

pub open spec fn spans_in_bounds(n: int, spans: Seq<(usize, usize)>) -> bool {
    forall|k: int| 0 <= k < spans.len() ==> (#[trigger] spans[k]).0 <= spans[k].1 <= n
}

/// Start and end of each word of `v`.
pub fn word_spans(v: &Vec<char>) -> (r: Vec<(usize, usize)>)
    ensures
        spans_in_bounds(v.len() as int, r@),
        spans_view(v@, r@) == words(v@),
{
    let n = v.len();
    let mut r: Vec<(usize, usize)> = Vec::new();
    let mut i: usize = 0;
    assert(v@.skip(0) =~= v@);
    assert(spans_view(v@, r@) + words(v@) =~= words(v@));
    while i < n
        invariant
            n == v.len(),
            i <= n,
            spans_in_bounds(n as int, r@),
            words(v@) == spans_view(v@, r@) + words(v@.skip(i as int)),
        decreases n - i,
    {
        if is_space(v[i]) {
            assert(v@.skip(i as int).drop_first() =~= v@.skip(i + 1));
            i = i + 1;
        } else {
            let start = i;
            while i < n && !is_space(v[i])
                invariant
                    start <= i <= n == v.len(),
                    forall|j: int| start <= j < i ==> !is_space_spec(#[trigger] v@[j]),
                decreases n - i,
            {
                i = i + 1;
            }
            proof {
                let rest = v@.skip(start as int);
                lemma_word_len_exact(rest, i - start);
                assert(rest.take(i - start) =~= v@.subrange(start as int, i as int));
                assert(rest.skip(i - start) =~= v@.skip(i as int));
            }
            let ghost before = r@;
            r.push((start, i));
            assert(spans_view(v@, r@) =~= spans_view(v@, before) + seq![v@.subrange(start as int, i as int)]);
        }
    }
    assert(v@.skip(n as int) =~= Seq::<char>::empty());
    assert(spans_view(v@, r@) + Seq::<Seq<char>>::empty() =~= spans_view(v@, r@));
    r
}

/// Whether `v[a.0..a.1]` and `v[b.0..b.1]` hold the same characters.
pub fn same_range(v: &Vec<char>, a: (usize, usize), b: (usize, usize)) -> (r: bool)
    requires
        a.0 <= a.1 <= v.len(),
        b.0 <= b.1 <= v.len(),
    ensures
        r == (v@.subrange(a.0 as int, a.1 as int) == v@.subrange(b.0 as int, b.1 as int)),
{
    if a.1 - a.0 != b.1 - b.0 {
        assert(v@.subrange(a.0 as int, a.1 as int).len() != v@.subrange(b.0 as int, b.1 as int).len());
        return false;
    }
    let len = a.1 - a.0;
    let mut k: usize = 0;
    while k < len
        invariant
            len == a.1 - a.0 == b.1 - b.0,
            a.0 <= a.1 <= v.len(),
            b.0 <= b.1 <= v.len(),
            k <= len,
            forall|j: int| 0 <= j < k ==> #[trigger] v@[a.0 + j] == v@[b.0 + j],
        decreases len - k,
    {
        if v[a.0 + k] != v[b.0 + k] {
            assert(v@.subrange(a.0 as int, a.1 as int)[k as int] != v@.subrange(b.0 as int, b.1 as int)[k as int]);
            return false;
        }
        k = k + 1;
    }
    assert forall|j: int| 0 <= j < len implies v@.subrange(a.0 as int, a.1 as int)[j]
        == v@.subrange(b.0 as int, b.1 as int)[j] by {
        assert(v@[a.0 + j] == v@[b.0 + j]);
    }
    assert(v@.subrange(a.0 as int, a.1 as int) =~= v@.subrange(b.0 as int, b.1 as int));
    true
}

/// `needle` occurs in `hay` at position `i`.
pub open spec fn occurs_at(hay: Seq<char>, needle: Seq<char>, i: int) -> bool {
    0 <= i && i + needle.len() <= hay.len() && hay.subrange(i, i + needle.len()) == needle
}

/// `needle` occurs somewhere in `hay`.
pub open spec fn contains_spec(hay: Seq<char>, needle: Seq<char>) -> bool {
    exists|i: int| occurs_at(hay, needle, i)
}

/// Whether `needle` occurs in `hay`, case included.
pub fn contains(hay: &str, needle: &str) -> (r: bool)
    ensures
        r == contains_spec(hay@, needle@),
{
    let h = chars_of(hay);
    let n = chars_of(needle);
    if n.len() > h.len() {
        return false;
    }
    let last = h.len() - n.len();
    let mut i: usize = 0;
    while i <= last
        invariant
            h@ == hay@,
            n@ == needle@,
            last == h.len() - n.len(),
            n.len() <= h.len(),
            forall|j: int| 0 <= j < i ==> !occurs_at(hay@, needle@, j),
        decreases last + 1 - i,
    {
        let mut k: usize = 0;
        let mut same = true;
        while k < n.len()
            invariant
                i <= last,
                last == h.len() - n.len(),
                k <= n.len(),
                same == forall|j: int| 0 <= j < k ==> h@[i + j] == #[trigger] n@[j],
            decreases n.len() - k,
        {
            if h[i + k] != n[k] {
                same = false;
            }
            k = k + 1;
        }
        if same {
            assert(h@.subrange(i as int, i + n.len()) =~= n@);
            assert(occurs_at(hay@, needle@, i as int));
            return true;
        }
        assert(!occurs_at(hay@, needle@, i as int)) by {
            if h@.subrange(i as int, i + n.len()) == n@ {
                assert forall|j: int| 0 <= j < n.len() implies h@[i + j] == #[trigger] n@[j] by {
                    assert(h@.subrange(i as int, i + n.len())[j] == h@[i + j]);
                }
            }
        }
        i = i + 1;
    }
    false
}

/// The decimal digit for `d`.
pub open spec fn digit_char(d: nat) -> char {
    if d == 0 { '0' } else if d == 1 { '1' } else if d == 2 { '2' } else if d == 3 { '3' }
    else if d == 4 { '4' } else if d == 5 { '5' } else if d == 6 { '6' } else if d == 7 { '7' }
    else if d == 8 { '8' } else { '9' }
}

/// `n` written in decimal, without leading zeros.
pub open spec fn decimal_spec(n: nat) -> Seq<char>
    decreases n,
{
    if n < 10 {
        seq![digit_char(n)]
    } else {
        decimal_spec(n / 10).push(digit_char(n % 10))
    }
}

fn digit(d: usize) -> (c: char)
    requires
        d < 10,
    ensures
        c == digit_char(d as nat),
{
    if d == 0 { '0' } else if d == 1 { '1' } else if d == 2 { '2' } else if d == 3 { '3' }
    else if d == 4 { '4' } else if d == 5 { '5' } else if d == 6 { '6' } else if d == 7 { '7' }
    else if d == 8 { '8' } else { '9' }
}

/// Appends `n` in decimal to `out`.
pub fn push_decimal(out: &mut String, n: usize)
    ensures
        final(out)@ == old(out)@ + decimal_spec(n as nat),
    decreases n,
{
    if n >= 10 {
        push_decimal(out, n / 10);
    }
    push_char(out, digit(n % 10));
    proof {
        if n >= 10 {
            assert(old(out)@ + decimal_spec(n as nat) =~= old(out)@ + decimal_spec((n / 10) as nat) + seq![digit_char((n % 10) as nat)]);
        } else {
            assert(old(out)@ + decimal_spec(n as nat) =~= old(out)@.push(digit_char((n % 10) as nat)));
        }
    }
}

/// Whether `a` and `b` hold the same characters.
pub fn same_text(a: &str, b: &str) -> (r: bool)
    ensures
        r == (a@ == b@),
{
    let x = chars_of(a);
    let y = chars_of(b);
    if x.len() != y.len() {
        return false;
    }
    let mut i: usize = 0;
    while i < x.len()
        invariant
            x@ == a@,
            y@ == b@,
            x.len() == y.len(),
            i <= x.len(),
            forall|j: int| 0 <= j < i ==> x@[j] == y@[j],
        decreases x.len() - i,
    {
        if x[i] != y[i] {
            return false;
        }
        i = i + 1;
    }
    assert(x@ =~= y@);
    true
}

} // verus!
