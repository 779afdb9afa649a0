use vstd::prelude::*;

verus! {

/// Samples per frame of the noise suppressor.
pub const DENOISE_FRAME: usize = 480;

/// Sample rate the speech engine expects, in Hz.
pub const TARGET_SAMPLE_RATE: u32 = 16000;

/// Number of fixed-size pieces that cover `n` samples, the last one possibly shorter.
pub open spec fn pieces(n: nat, size: nat) -> nat
    recommends
        size > 0,
{
    if n % size == 0 {
        n / size
    } else {
        n / size + 1
    }
}

/// Length of piece `i` of `n` samples cut into pieces of `size`.
pub open spec fn piece_len(n: nat, size: nat, i: nat) -> nat {
    if n >= size * (i + 1) {
        size
    } else {
        (n - size * i) as nat
    }
}

/// Total length of the first `k` pieces.
pub open spec fn pieces_total(n: nat, size: nat, k: nat) -> nat
    decreases k,
{
    if k == 0 {
        0
    } else {
        pieces_total(n, size, (k - 1) as nat) + piece_len(n, size, (k - 1) as nat)
    }
}

/// Number of denoiser frames for `n` samples: one per 480 samples, the last one padded.
pub fn frame_count(n: usize) -> (r: usize)
    ensures
        r == pieces(n as nat, DENOISE_FRAME as nat),
{
    piece_count(n, DENOISE_FRAME)
}

/// How many samples of frame `i` go back into the output: the whole frame, or for the
/// last one only the samples that were there before padding.
pub fn frame_len(n: usize, i: usize) -> (r: usize)
    requires
        i < pieces(n as nat, DENOISE_FRAME as nat),
    ensures
        r == piece_len(n as nat, DENOISE_FRAME as nat, i as nat),
        0 < r <= DENOISE_FRAME,
{
    piece_length(n, DENOISE_FRAME, i)
}

/// Number of pieces of `size` that cover `n`.
pub fn piece_count(n: usize, size: usize) -> (r: usize)
    requires
        size > 0,
    ensures
        r == pieces(n as nat, size as nat),
{
    if n % size == 0 {
        n / size
    } else {
        proof {
            vstd::arithmetic::div_mod::lemma_fundamental_div_mod(n as int, size as int);
            assert(size > 1 && n > 0) by (nonlinear_arith)
                requires
                    n == size * (n / size) + (n % size),
                    n % size != 0,
                    0 <= n % size < size,
                    n / size >= 0,
            ;
            vstd::arithmetic::div_mod::lemma_div_decreases(n as int, size as int);
        }
        n / size + 1
    }
}

/// Length of piece `i` of `n` cut into pieces of `size`.
pub fn piece_length(n: usize, size: usize, i: usize) -> (r: usize)
    requires
        size > 0,
        i < pieces(n as nat, size as nat),
    ensures
        r == piece_len(n as nat, size as nat, i as nat),
        0 < r <= size,
{
    proof {
        lemma_piece_start(n as nat, size as nat, i as nat);
    }
    let start = size * i;
    assert(size * (i + 1) == size * i + size) by (nonlinear_arith);
    if n - start >= size {
        size
    } else {
        n - start
    }
}

/// Every piece starts inside the input.
pub proof fn lemma_piece_start(n: nat, size: nat, i: nat)
    requires
        size > 0,
        i < pieces(n, size),
    ensures
        size * i < n,
{
    let q = n / size;
    let r = n % size;
    assert(n == size * q + r) by (nonlinear_arith)
        requires size > 0, q == n / size, r == n % size;
    assert(size * i <= size * q) by (nonlinear_arith)
        requires i <= q, size > 0;
    if r == 0 {
        assert(i < q);
        assert(size * i + size <= size * q) by (nonlinear_arith)
            requires i < q, size > 0;
    }
}

/// The pieces cover the input exactly: their lengths add up to `n`. For the denoiser
/// this says that the output has as many samples as the input, for every input length.
pub proof fn lemma_pieces_cover(n: nat, size: nat)
    requires
        size > 0,
    ensures
        pieces_total(n, size, pieces(n, size)) == n,
{
    let k = pieces(n, size);
    lemma_pieces_prefix(n, size, k);
    let q = n / size;
    let r = n % size;
    assert(n == size * q + r) by (nonlinear_arith)
        requires size > 0, q == n / size, r == n % size;
    assert(size * k >= n) by (nonlinear_arith)
        requires n == size * q + r, r < size, k == (if r == 0 { q } else { q + 1 }), size > 0;
}

proof fn lemma_pieces_prefix(n: nat, size: nat, k: nat)
    requires
        size > 0,
        k <= pieces(n, size),
    ensures
        pieces_total(n, size, k) == if size * k <= n { size * k } else { n },
    decreases k,
{
    if k > 0 {
        lemma_pieces_prefix(n, size, (k - 1) as nat);
        lemma_piece_start(n, size, (k - 1) as nat);
        let j = (k - 1) as nat;
        assert(size * k == size * j + size) by (nonlinear_arith)
            requires k == j + 1;
        assert(size * (j + 1) == size * k);
        assert(size * j < n);
        if n >= size * k {
            assert(piece_len(n, size, j) == size);
        } else {
            assert(piece_len(n, size, j) == n - size * j);
        }
        assert(pieces_total(n, size, k) == pieces_total(n, size, j) + piece_len(n, size, j));
    } else {
        assert(size * k == 0) by (nonlinear_arith)
            requires k == 0;
    }
}

/// The denoiser gives back exactly as many samples as it was given, whatever the length,
/// a multiple of the frame size or not, and none at all for an empty input.
pub proof fn lemma_denoise_keeps_length(n: nat)
    ensures
        pieces_total(n, DENOISE_FRAME as nat, pieces(n, DENOISE_FRAME as nat)) == n,
        n == 0 ==> pieces(n, DENOISE_FRAME as nat) == 0,
{
    lemma_pieces_cover(n, DENOISE_FRAME as nat);
}

} // verus!
