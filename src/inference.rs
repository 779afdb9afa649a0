use vstd::prelude::*;
use vstd::string::StringExecFns;
use vstd::utf8::{decode_utf8, valid_utf8};

use crate::conditioning::{lemma_piece_start, piece_count, piece_len, piece_length, pieces};
use crate::text::{trim, trim_spec};

verus! {

/// Context size of the text engine, in tokens.
pub const CONTEXT_TOKENS: u32 = 8192;

/// Most prompt tokens fed to the engine in one call.
pub const PROMPT_BATCH: usize = 512;

/// Number of batches that feed a prompt of `n_tokens` tokens.
pub fn prompt_batch_count(n_tokens: usize) -> (r: usize)
    ensures
        r == pieces(n_tokens as nat, PROMPT_BATCH as nat),
{
    piece_count(n_tokens, PROMPT_BATCH)
}

/// Token range `[start, end)` of prompt batch `k`. Only the prompt's last token asks for
/// logits, and it is the last token of the last batch.
pub fn prompt_batch(n_tokens: usize, k: usize) -> (r: (usize, usize))
    requires
        k < pieces(n_tokens as nat, PROMPT_BATCH as nat),
    ensures
        r.0 == PROMPT_BATCH * k,
        r.1 == r.0 + piece_len(n_tokens as nat, PROMPT_BATCH as nat, k as nat),
        r.0 < r.1 <= n_tokens,
{
    proof {
        lemma_piece_start(n_tokens as nat, PROMPT_BATCH as nat, k as nat);
    }
    let len = piece_length(n_tokens, PROMPT_BATCH, k);
    let start = PROMPT_BATCH * k;
    (start, start + len)
}

/// Progress reported while generating: at every tenth token, the share of the budget used.
pub fn generation_progress(i: u32, max_tokens: u32) -> (r: Option<u32>)
    requires
        i < max_tokens,
    ensures
        i % 10 == 0 ==> r == Some(((i * 100) as int / (max_tokens as int)) as u32),
        i % 10 != 0 ==> r is None,
{
    if i % 10 == 0 {
        let num: u64 = i as u64 * 100;
        let q = num / max_tokens as u64;
        assert(q <= 100) by (nonlinear_arith)
            requires q as int == num as int / max_tokens as int, num == i * 100, i < max_tokens;
        Some(q as u32)
    } else {
        None
    }
}

/// Relies on `std::str::from_utf8`: succeeds exactly on valid UTF-8, and then holds the
/// characters it encodes.
#[verifier::external_body]
fn utf8_text(bytes: &[u8]) -> (r: Option<String>)
    ensures
        r is Some <==> valid_utf8(bytes@),
        r matches Some(s) ==> s@ == decode_utf8(bytes@),
{
    match std::str::from_utf8(bytes) {
        Ok(s) => Some(s.to_string()),
        Err(_) => None,
    }
}

/// Generated text, assembled from the bytes of the tokens as they come. A token may end
/// inside a character; its bytes wait until the character is complete, so only whole
/// text is ever handed on.
pub struct TokenText {
    pending: Vec<u8>,
    text: String,
}

impl TokenText {
    /// Bytes that do not yet form valid UTF-8.
    pub closed spec fn pending_spec(&self) -> Seq<u8> {
        self.pending@
    }

    /// The text decoded so far.
    pub closed spec fn text_spec(&self) -> Seq<char> {
        self.text@
    }

    pub fn new() -> (r: Self)
        ensures
            r.pending_spec() == Seq::<u8>::empty(),
            r.text_spec() == Seq::<char>::empty(),
    {
        TokenText { pending: Vec::new(), text: String::new() }
    }

    /// Adds one token's bytes. When the waiting bytes and these form valid UTF-8, their
    /// text is appended and returned for streaming; else they wait for the next token.
    pub fn push_token(&mut self, bytes: &[u8]) -> (r: Option<String>)
        ensures
            ({
                let all = old(self).pending_spec() + bytes@;
                if valid_utf8(all) {
                    &&& r matches Some(s)
                    &&& s@ == decode_utf8(all)
                    &&& final(self).text_spec() == old(self).text_spec() + s@
                    &&& final(self).pending_spec() == Seq::<u8>::empty()
                } else {
                    &&& r is None
                    &&& final(self).text_spec() == old(self).text_spec()
                    &&& final(self).pending_spec() == all
                }
            }),
    {
        let ghost before = self.pending@;
        self.pending.extend_from_slice(bytes);
        assert(self.pending@ =~= before + bytes@);
        match utf8_text(self.pending.as_slice()) {
            Some(s) => {
                self.text.append(s.as_str());
                self.pending = Vec::new();
                Some(s)
            },
            None => None,
        }
    }

    /// The generated text, trimmed.
    pub fn finish(&self) -> (r: String)
        ensures
            r@ == trim_spec(self.text_spec()),
    {
        String::from_str(trim(self.text.as_str()))
    }
}

} // verus!
