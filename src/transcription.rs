use vstd::prelude::*;
use vstd::string::StringExecFns;

use crate::conditioning::{lemma_piece_start, piece_count, piece_len, piece_length, pieces};
use crate::loop_detect::{has_transcription_loop, is_transcription_loop};
use crate::text::{trim, trim_spec};

verus! {

/// Samples in one transcription window: 30 seconds at 16 kHz.
pub const WINDOW_SAMPLES: usize = 480000;

/// Number of windows for `total` samples: the last one may be shorter.
pub fn window_count(total: usize) -> (r: usize)
    ensures
        r == pieces(total as nat, WINDOW_SAMPLES as nat),
{
    piece_count(total, WINDOW_SAMPLES)
}

/// Sample range `[start, end)` of window `i`. Windows do not overlap and cover the input.
pub fn window_bounds(total: usize, i: usize) -> (r: (usize, usize))
    requires
        i < pieces(total as nat, WINDOW_SAMPLES as nat),
    ensures
        r.0 == WINDOW_SAMPLES * i,
        r.1 == r.0 + piece_len(total as nat, WINDOW_SAMPLES as nat, i as nat),
        r.0 < r.1 <= total,
{
    proof {
        lemma_piece_start(total as nat, WINDOW_SAMPLES as nat, i as nat);
    }
    let len = piece_length(total, WINDOW_SAMPLES, i);
    let start = WINDOW_SAMPLES * i;
    (start, start + len)
}

/// `p` held to `[0, 100]`.
pub open spec fn clamp_percent(p: int) -> int {
    if p < 0 {
        0
    } else if p > 100 {
        100
    } else {
        p
    }
}

/// Overall progress, in percent, while window `window` of `windows` is `intra` percent
/// done: `(window + intra / 100) / windows`, so that one smooth arc covers the recording.
pub fn overall_progress(window: usize, windows: usize, intra: i32) -> (r: u32)
    requires
        window < windows,
    ensures
        r == (window * 100 + clamp_percent(intra as int)) / (windows as int),
        r <= 100,
{
    let p: u128 = if intra < 0 {
        0
    } else if intra > 100 {
        100
    } else {
        intra as u128
    };
    let num: u128 = window as u128 * 100 + p;
    assert(num <= windows * 100) by (nonlinear_arith)
        requires num == window * 100 + p, p <= 100, window + 1 <= windows;
    let q = num / (windows as u128);
    assert(q <= 100) by (nonlinear_arith)
        requires q as int == num as int / (windows as int), num <= windows * 100, windows > 0;
    q as u32
}

/// The text of one window: each segment followed by a space, the whole trimmed.
pub open spec fn segments_text(segs: Seq<Seq<char>>) -> Seq<char>
    decreases segs.len(),
{
    if segs.len() == 0 {
        Seq::empty()
    } else {
        segments_text(segs.drop_last()) + segs.last() + seq![' ']
    }
}

pub open spec fn views(v: Seq<String>) -> Seq<Seq<char>> {
    v.map_values(|s: String| s@)
}

/// The text of a window from the segments the engine gave for it.
pub fn window_text(segments: &Vec<String>) -> (r: String)
    ensures
        r@ == trim_spec(segments_text(views(segments@))),
{
    let mut all = String::new();
    let mut i: usize = 0;
    while i < segments.len()
        invariant
            i <= segments.len(),
            all@ == segments_text(views(segments@.take(i as int))),
        decreases segments.len() - i,
    {
        all.append(segments[i].as_str());
        all.append(" ");
        proof {
            reveal_strlit(" ");
            let s = views(segments@.take(i + 1));
            assert(s.drop_last() =~= views(segments@.take(i as int)));
        }
        i = i + 1;
    }
    assert(segments@.take(segments.len() as int) =~= segments@);
    String::from_str(trim(all.as_str()))
}

/// A window's text is kept when it is not empty and is not a loop.
pub open spec fn kept(t: Seq<char>) -> bool {
    t.len() > 0 && !is_transcription_loop(t)
}

/// The transcript built from the windows' texts, in order: the kept ones joined by single
/// spaces.
pub open spec fn assemble(ts: Seq<Seq<char>>) -> Seq<char>
    decreases ts.len(),
{
    if ts.len() == 0 {
        Seq::empty()
    } else {
        let prev = assemble(ts.drop_last());
        let t = ts.last();
        if !kept(t) {
            prev
        } else if prev.len() == 0 {
            t
        } else {
            prev + seq![' '] + t
        }
    }
}

/// What became of one window.
pub struct WindowResult {
    pub window_index: usize,
    pub text: String,
    /// False when the text was a loop and was left out of the transcript.
    pub accepted: bool,
}

/// The transcription stage, window by window. The caller transcribes each window with a
/// fresh engine context and hands the segments back through `record_window`.
pub struct TranscriptionRun {
    total_samples: usize,
    windows: usize,
    next: usize,
    text: String,
    seen: Ghost<Seq<Seq<char>>>,
}

impl TranscriptionRun {
    pub closed spec fn total_samples_spec(&self) -> nat {
        self.total_samples as nat
    }

    /// Number of windows in the run.
    pub closed spec fn windows_spec(&self) -> nat {
        self.windows as nat
    }

    /// The texts of the windows transcribed so far, in order.
    pub closed spec fn seen(&self) -> Seq<Seq<char>> {
        self.seen@
    }

    pub closed spec fn wf(&self) -> bool {
        &&& self.windows == pieces(self.total_samples as nat, WINDOW_SAMPLES as nat)
        &&& self.next == self.seen@.len()
        &&& self.next <= self.windows
        &&& self.text@ == assemble(self.seen@)
    }

    /// A run over `total_samples` samples of 16 kHz audio, before its first window.
    pub fn new(total_samples: usize) -> (r: Self)
        ensures
            r.wf(),
            r.total_samples_spec() == total_samples,
            r.windows_spec() == pieces(total_samples as nat, WINDOW_SAMPLES as nat),
            r.seen() == Seq::<Seq<char>>::empty(),
    {
        TranscriptionRun {
            total_samples,
            windows: window_count(total_samples),
            next: 0,
            text: String::new(),
            seen: Ghost(Seq::empty()),
        }
    }

    pub fn windows(&self) -> (r: usize)
        ensures
            r == self.windows_spec(),
    {
        self.windows
    }

    /// Whether every window has been recorded.
    pub fn is_done(&self) -> (r: bool)
        requires
            self.wf(),
        ensures
            r == (self.seen().len() == self.windows_spec()),
            self.seen().len() <= self.windows_spec(),
    {
        self.next == self.windows
    }

    /// Index and sample range of the next window to transcribe, if any is left.
    pub fn next_window(&self) -> (r: Option<(usize, usize, usize)>)
        requires
            self.wf(),
        ensures
            self.seen().len() == self.windows_spec() ==> r is None,
            self.seen().len() < self.windows_spec() ==> (r matches Some((i, a, b)) && i
                == self.seen().len() && a == WINDOW_SAMPLES * i && b == a + piece_len(
                self.total_samples_spec(),
                WINDOW_SAMPLES as nat,
                i as nat,
            )),
    {
        if self.next == self.windows {
            None
        } else {
            let (a, b) = window_bounds(self.total_samples, self.next);
            Some((self.next, a, b))
        }
    }

    /// Overall progress while the next window is `intra` percent done.
    pub fn progress(&self, intra: i32) -> (r: u32)
        requires
            self.wf(),
            self.seen().len() < self.windows_spec(),
        ensures
            r == (self.seen().len() * 100 + clamp_percent(intra as int)) / (
            self.windows_spec() as int),
    {
        overall_progress(self.next, self.windows, intra)
    }

    /// Takes the engine's segments for the next window. The window's text joins the
    /// transcript unless it is empty or a loop; a loop is reported as not accepted.
    pub fn record_window(&mut self, segments: &Vec<String>) -> (r: WindowResult)
        requires
            old(self).wf(),
            old(self).seen().len() < old(self).windows_spec(),
        ensures
            final(self).wf(),
            final(self).total_samples_spec() == old(self).total_samples_spec(),
            final(self).windows_spec() == old(self).windows_spec(),
            r.text@ == trim_spec(segments_text(views(segments@))),
            final(self).seen() == old(self).seen().push(r.text@),
            r.window_index == old(self).seen().len(),
            r.accepted == !is_transcription_loop(r.text@),
    {
        let text = window_text(segments);
        let looped = has_transcription_loop(text.as_str());
        let ghost prev = self.seen@;
        if !looped && text.as_str().unicode_len() > 0 {
            if self.text.as_str().unicode_len() > 0 {
                self.text.append(" ");
                proof {
                    reveal_strlit(" ");
                }
            }
            self.text.append(text.as_str());
        }
        let index = self.next;
        self.next = self.next + 1;
        self.seen = Ghost(prev.push(text@));
        proof {
            assert(self.seen@.drop_last() =~= prev);
            assert(self.seen@.last() == text@);
            reveal_strlit(" ");
            assert(" "@ =~= seq![' ']);
            if kept(text@) {
                if assemble(prev).len() > 0 {
                    assert(self.text@ =~= assemble(prev) + seq![' '] + text@);
                } else {
                    assert(self.text@ =~= text@);
                }
            }
        }
        WindowResult { window_index: index, text, accepted: !looped }
    }

    /// The transcript so far: the kept windows' texts, single-space joined, trimmed.
    pub fn transcript(&self) -> (r: String)
        requires
            self.wf(),
        ensures
            r@ == trim_spec(assemble(self.seen())),
    {
        String::from_str(trim(self.text.as_str()))
    }
}

/// The speech side of the pipeline: the audio file to read and the speech model to use.
pub struct AudioProcessor {
    pub file_path: String,
    pub whisper_model: String,
}

impl AudioProcessor {
    pub fn new(file_path: String, whisper_model: String) -> (r: Self)
        ensures
            r.file_path == file_path,
            r.whisper_model == whisper_model,
    {
        AudioProcessor { file_path, whisper_model }
    }

    /// Where the speech model is fetched from when it is not on disk.
    pub fn model_url(&self) -> (r: String)
        ensures
            r@ == "https://huggingface.co/ggerganov/whisper.cpp/resolve/main/"@ + self.whisper_model@,
    {
        let mut r = String::from_str("https://huggingface.co/ggerganov/whisper.cpp/resolve/main/");
        r.append(self.whisper_model.as_str());
        r
    }
}

} // verus!
