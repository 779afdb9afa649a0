use vstd::prelude::*;
use vstd::string::{StrSliceExecFns, StringExecFns};

use crate::chunking::{chunks_spec, split_into_chunks};
use crate::prompts::{
    build_acta_prompt, build_chunk_extraction_acta_prompt, build_chunk_extraction_prompt,
    build_final_acta_prompt, build_final_summary_prompt, build_summary_prompt, chat_wrap,
    chunk_extraction_text, family_for, final_minutes_text, final_summary_text, lower_of,
    minutes_chunk_text, minutes_prefix, minutes_text, opt_view, plausible_json_object,
    report_prefix, summary_text, is_plausible_json_object,
};
use crate::templates;
use crate::text::{chars_of, contains, same_text, contains_spec, decimal_spec, push_decimal, trim_range, trim_spec};

verus! {

/// Longest transcript, in characters, that is summarized in one pass.
pub const MAX_DIRECT_CHARS: usize = 6000;

/// Target size, in characters, of the sections of a longer transcript.
pub const CHUNK_SIZE: usize = 5000;

/// Characters of the transcript that the entity pass reads.
pub const ENTITY_SOURCE_CHARS: usize = 5000;

/// Characters of a section's output carried into the next section's prompt.
pub const CONTINUITY_CHARS: usize = 250;

/// Text model used when none is named.
pub const DEFAULT_LLM_MODEL: &'static str = "Llama-3.2-3B-Instruct-Q4_K_M.gguf";

/// Model of the entity pass.
pub const ENTITY_MODEL: &'static str = "gemma-2-9b-it-IQ4_XS.gguf";

/// Token budget of the entity pass.
pub const ENTITY_MAX_TOKENS: u32 = 700;

/// The shape of the report.
#[derive(Clone, Copy, PartialEq, Eq, Structural, Debug)]
pub enum OutputMode {
    /// A sectioned quick-reference summary.
    Summary,
    /// Formal minutes: agenda, discussion, resolutions, follow-ups.
    Minutes,
}

/// The mode named by the caller: `"acta"` asks for minutes, anything else, or nothing,
/// for a summary.
pub fn output_mode(mode: Option<&str>) -> (r: OutputMode)
    ensures
        r == (if opt_view(mode) == Some("acta"@) { OutputMode::Minutes } else { OutputMode::Summary }),
{
    match mode {
        Some(m) => {
            if same_text(m, "acta") {
                OutputMode::Minutes
            } else {
                OutputMode::Summary
            }
        },
        None => OutputMode::Summary,
    }
}

/// The model to use: the one named, else the default.
pub fn model_or_default<'a>(llm_model: Option<&'a str>) -> (r: &'a str)
    ensures
        r@ == match llm_model {
            Some(m) => m@,
            None => DEFAULT_LLM_MODEL@,
        },
{
    match llm_model {
        Some(m) => m,
        None => DEFAULT_LLM_MODEL,
    }
}

/// A transcript of at most `MAX_DIRECT_CHARS` characters is summarized in one pass;
/// a longer one is split into sections first.
pub fn uses_direct_path(transcript: &str) -> (r: bool)
    ensures
        r == (transcript@.len() <= MAX_DIRECT_CHARS),
{
    transcript.unicode_len() <= MAX_DIRECT_CHARS
}

/// The part of the transcript the entity pass reads: its first `ENTITY_SOURCE_CHARS`
/// characters.
pub fn entity_source(transcript: &str) -> (r: &str)
    ensures
        r@ == transcript@.take(
            if transcript@.len() < ENTITY_SOURCE_CHARS { transcript@.len() as int } else { ENTITY_SOURCE_CHARS as int },
        ),
{
    let n = transcript.unicode_len();
    let end = if n < ENTITY_SOURCE_CHARS { n } else { ENTITY_SOURCE_CHARS };
    transcript.substring_char(0, end)
}

/// The entity pass's output turned into a record: its prompt ends with `{`, so the brace is
/// put back in front. A record that does not look like a JSON object is dropped.
pub fn accept_entity_output(raw: &str) -> (r: Option<String>)
    ensures
        plausible_json_object("{"@ + raw@) ==> (r matches Some(j) && j@ == "{"@ + raw@),
        !plausible_json_object("{"@ + raw@) ==> r is None,
{
    let mut json = String::from_str("{");
    json.append(raw);
    if is_plausible_json_object(json.as_str()) {
        Some(json)
    } else {
        None
    }
}

/// Where the continuity tail of `ideas` starts: `CONTINUITY_CHARS` before the end, moved on
/// past the first space from there so that it starts on a word.
pub open spec fn tail_start(ideas: Seq<char>) -> int {
    let from = if ideas.len() > CONTINUITY_CHARS { ideas.len() - CONTINUITY_CHARS } else { 0 };
    if exists|k: int| from <= k < ideas.len() && ideas[k] == ' ' {
        first_space_from(ideas, from) + 1
    } else {
        from
    }
}

pub open spec fn first_space_from(s: Seq<char>, from: int) -> int
    decreases s.len() - from,
{
    if from < 0 || from >= s.len() {
        s.len() as int
    } else if s[from] == ' ' {
        from
    } else {
        first_space_from(s, from + 1)
    }
}

/// The close of a section's output, handed to the next section in minutes mode.
pub open spec fn continuity_tail_spec(ideas: Seq<char>) -> Seq<char> {
    trim_spec(ideas.skip(tail_start(ideas)))
}

/// About the last `CONTINUITY_CHARS` characters of `ideas`, starting on a word, trimmed.
pub fn continuity_tail(ideas: &str) -> (r: String)
    ensures
        r@ == continuity_tail_spec(ideas@),
{
    let v = chars_of(ideas);
    let n = v.len();
    let from = if n > CONTINUITY_CHARS { n - CONTINUITY_CHARS } else { 0 };
    let mut k: usize = from;
    while k < n && v[k] != ' '
        invariant
            from <= k <= n == v.len(),
            v@ == ideas@,
            first_space_from(v@, from as int) == first_space_from(v@, k as int),
            forall|j: int| from <= j < k ==> v@[j] != ' ',
        decreases n - k,
    {
        k = k + 1;
    }
    let start = if k < n { k + 1 } else { from };
    proof {
        if k < n {
            assert(from <= k < n && v@[k as int] == ' ');
        } else {
            assert(!exists|j: int| from <= j < n && v@[j] == ' ');
        }
        assert(start == tail_start(ideas@));
    }
    let (a, b) = trim_range(&v, start, n);
    proof {
        assert(v@.subrange(start as int, n as int) =~= ideas@.skip(start as int));
    }
    crate::text::string_of_range(&v, a, b)
}

/// One section's output as it enters the consolidation prompt.
pub open spec fn section_entry_spec(num: nat, ideas: Seq<char>) -> Seq<char> {
    "\n### Sección "@ + decimal_spec(num) + "\n"@ + ideas + "\n"@
}

pub fn push_section_entry(out: &mut String, num: usize, ideas: &str)
    ensures
        final(out)@ == old(out)@ + section_entry_spec(num as nat, ideas@),
{
    out.append("\n### Sección ");
    push_decimal(out, num);
    out.append("\n");
    out.append(ideas);
    out.append("\n");
    assert(final(out)@ =~= old(out)@ + section_entry_spec(num as nat, ideas@));
}

/// Progress shown while section `idx` of `total` is extracted: the map phase covers 0 to 70%.
pub fn map_progress(idx: usize, total: usize) -> (r: u32)
    requires
        idx < total,
    ensures
        r as int == idx * 70 / (total as int),
{
    let num: u128 = idx as u128 * 70;
    let q = num / total as u128;
    assert(q <= 70) by (nonlinear_arith)
        requires q as int == num as int / total as int, num == idx * 70, idx < total;
    q as u32
}

/// Token budget of the one-pass report.
pub open spec fn direct_tokens(mode: OutputMode) -> u32 {
    if mode == OutputMode::Minutes { 700 } else { 500 }
}

/// Token budget of one section's extraction.
pub open spec fn section_tokens(mode: OutputMode) -> u32 {
    if mode == OutputMode::Minutes { 400 } else { 300 }
}

/// Token budget of the consolidated report.
pub open spec fn final_tokens(mode: OutputMode) -> u32 {
    if mode == OutputMode::Minutes { 900 } else { 500 }
}

/// One call of the text engine that the run asks for.
pub struct InferenceRequest {
    pub prompt: String,
    pub max_tokens: u32,
    /// Whether the generated text is user-facing and streams to the observer.
    pub stream: bool,
    /// Progress to show when the call starts.
    pub percent: u32,
    /// For a section's extraction, its number (from 1) and the number of sections.
    pub section: Option<(usize, usize)>,
}

/// Where a run stands.
#[derive(Clone, Copy, PartialEq, Eq, Structural, Debug)]
pub enum Phase {
    /// One call over the whole transcript is due.
    Direct,
    /// Sections are being extracted; when all are, the consolidation call is due.
    Sections,
    /// The report is ready.
    Done,
}

/// The summarization of one transcript, as a sequence of text-engine calls. The caller
/// runs each requested call with the loaded model and hands the output back.
pub struct SummaryRun {
    model: String,
    mode: OutputMode,
    entities: Option<String>,
    transcript: String,
    phase: Phase,
    chunks: Vec<String>,
    next: usize,
    ideas: String,
    tail: Option<String>,
    report: Option<String>,
}

/// Prompt of the one-pass report.
pub open spec fn direct_prompt(
    mode: OutputMode,
    transcript: Seq<char>,
    entities: Option<Seq<char>>,
    model: Seq<char>,
) -> Seq<char> {
    if mode == OutputMode::Minutes {
        chat_wrap(family_for(lower_of(model)), templates::SYSTEM_PROMPT_MINUTES@, minutes_text(transcript, entities), minutes_prefix())
    } else {
        chat_wrap(family_for(lower_of(model)), templates::SYSTEM_PROMPT@, summary_text(transcript, entities), report_prefix())
    }
}

/// Prompt of the extraction of section `num` of `total`.
pub open spec fn section_prompt(
    mode: OutputMode,
    chunk: Seq<char>,
    num: nat,
    total: nat,
    prev: Option<Seq<char>>,
    model: Seq<char>,
) -> Seq<char> {
    if mode == OutputMode::Minutes {
        chat_wrap(family_for(lower_of(model)), templates::MINUTES_CHUNK_SYSTEM@, minutes_chunk_text(chunk, num, total, prev), ""@)
    } else {
        chat_wrap(family_for(lower_of(model)), templates::CHUNK_SYSTEM@, chunk_extraction_text(chunk, num, total), "- "@)
    }
}

/// Prompt of the consolidation of all sections.
pub open spec fn final_prompt(
    mode: OutputMode,
    ideas: Seq<char>,
    entities: Option<Seq<char>>,
    model: Seq<char>,
) -> Seq<char> {
    if mode == OutputMode::Minutes {
        chat_wrap(family_for(lower_of(model)), templates::SYSTEM_PROMPT_MINUTES@, final_minutes_text(ideas, entities), minutes_prefix())
    } else {
        chat_wrap(family_for(lower_of(model)), templates::SYSTEM_PROMPT@, final_summary_text(ideas, entities), report_prefix())
    }
}

pub open spec fn string_opt(o: Option<String>) -> Option<Seq<char>> {
    match o {
        Some(s) => Some(s@),
        None => None,
    }
}

impl SummaryRun {
    pub closed spec fn model_spec(&self) -> Seq<char> {
        self.model@
    }

    pub closed spec fn mode_spec(&self) -> OutputMode {
        self.mode
    }

    pub closed spec fn entities_spec(&self) -> Option<Seq<char>> {
        string_opt(self.entities)
    }

    pub closed spec fn transcript_spec(&self) -> Seq<char> {
        self.transcript@
    }

    pub closed spec fn phase_spec(&self) -> Phase {
        self.phase
    }

    /// The sections of the transcript, when it is long.
    pub closed spec fn chunks_view(&self) -> Seq<Seq<char>> {
        self.chunks@.map_values(|c: String| c@)
    }

    /// How many sections have been extracted.
    pub closed spec fn done_sections(&self) -> nat {
        self.next as nat
    }

    /// The extracted findings so far, each under its section heading.
    pub closed spec fn ideas_spec(&self) -> Seq<char> {
        self.ideas@
    }

    /// The close of the last extracted section, carried into the next in minutes mode.
    pub closed spec fn tail_spec(&self) -> Option<Seq<char>> {
        string_opt(self.tail)
    }

    pub closed spec fn report_spec(&self) -> Option<Seq<char>> {
        string_opt(self.report)
    }

    pub closed spec fn wf(&self) -> bool {
        &&& self.phase == Phase::Sections ==> self.next <= self.chunks@.len()
        &&& (self.phase == Phase::Done) == (self.report is Some)
        &&& self.mode == OutputMode::Summary ==> self.tail is None
    }

    /// A run over `transcript`: direct when it is at most `MAX_DIRECT_CHARS` characters,
    /// else over its sections of about `CHUNK_SIZE` characters.
    pub fn new(transcript: &str, model: &str, mode: OutputMode, entities: Option<&str>) -> (r: Self)
        ensures
            r.wf(),
            r.model_spec() == model@,
            r.mode_spec() == mode,
            r.entities_spec() == opt_view(entities),
            r.transcript_spec() == transcript@,
            r.phase_spec() == (if transcript@.len() <= MAX_DIRECT_CHARS { Phase::Direct } else { Phase::Sections }),
            r.phase_spec() == Phase::Sections ==> r.chunks_view() == chunks_spec(transcript@, CHUNK_SIZE as nat),
            r.done_sections() == 0,
            r.ideas_spec() == Seq::<char>::empty(),
            r.tail_spec() is None,
            r.report_spec() is None,
    {
        let direct = uses_direct_path(transcript);
        let mut chunks: Vec<String> = Vec::new();
        if !direct {
            let pieces = split_into_chunks(transcript, CHUNK_SIZE);
            let mut i: usize = 0;
            while i < pieces.len()
                invariant
                    i <= pieces.len(),
                    pieces@.len() == chunks_spec(transcript@, CHUNK_SIZE as nat).len(),
                    forall|k: int| 0 <= k < pieces@.len() ==> (#[trigger] pieces@[k])@ == chunks_spec(transcript@, CHUNK_SIZE as nat)[k],
                    chunks@.len() == i,
                    forall|k: int| 0 <= k < i ==> (#[trigger] chunks@[k])@ == pieces@[k]@,
                decreases pieces.len() - i,
            {
                chunks.push(String::from_str(pieces[i]));
                i = i + 1;
            }
            proof {
                assert(chunks@.map_values(|c: String| c@) =~= chunks_spec(transcript@, CHUNK_SIZE as nat));
            }
        }
        let entities = match entities {
            Some(e) => Some(String::from_str(e)),
            None => None,
        };
        SummaryRun {
            model: String::from_str(model),
            mode,
            entities,
            transcript: String::from_str(transcript),
            phase: if direct { Phase::Direct } else { Phase::Sections },
            chunks,
            next: 0,
            ideas: String::new(),
            tail: None,
            report: None,
        }
    }

    pub fn phase(&self) -> (r: Phase)
        ensures
            r == self.phase_spec(),
    {
        self.phase
    }

    /// The next call to run, or `None` once the report is ready.
    pub fn request(&self) -> (r: Option<InferenceRequest>)
        requires
            self.wf(),
        ensures
            self.phase_spec() == Phase::Done ==> r is None,
            self.phase_spec() == Phase::Direct ==> (r matches Some(q) && q.prompt@ == direct_prompt(
                self.mode_spec(),
                self.transcript_spec(),
                self.entities_spec(),
                self.model_spec(),
            ) && q.max_tokens == direct_tokens(self.mode_spec()) && q.stream && q.percent == 0
                && q.section is None),
            self.phase_spec() == Phase::Sections && self.done_sections() < self.chunks_view().len()
                ==> (r matches Some(q) && q.prompt@ == section_prompt(
                self.mode_spec(),
                self.chunks_view()[self.done_sections() as int],
                self.done_sections() + 1,
                self.chunks_view().len(),
                self.tail_spec(),
                self.model_spec(),
            ) && q.max_tokens == section_tokens(self.mode_spec()) && !q.stream && q.percent as int
                == (self.done_sections() * 70) as int / (self.chunks_view().len() as int) && q.section == Some(
                ((self.done_sections() + 1) as usize, self.chunks_view().len() as usize),
            )),
            self.phase_spec() == Phase::Sections && self.done_sections() == self.chunks_view().len()
                ==> (r matches Some(q) && q.prompt@ == final_prompt(
                self.mode_spec(),
                self.ideas_spec(),
                self.entities_spec(),
                self.model_spec(),
            ) && q.max_tokens == final_tokens(self.mode_spec()) && q.stream && q.percent == 75
                && q.section is None),
    {
        let minutes = self.mode == OutputMode::Minutes;
        let entities = match &self.entities {
            Some(e) => Some(e.as_str()),
            None => None,
        };
        let model = self.model.as_str();
        match self.phase {
            Phase::Done => None,
            Phase::Direct => {
                let prompt = if minutes {
                    build_acta_prompt(self.transcript.as_str(), entities, model)
                } else {
                    build_summary_prompt(self.transcript.as_str(), entities, model)
                };
                Some(InferenceRequest {
                    prompt,
                    max_tokens: if minutes { 700 } else { 500 },
                    stream: true,
                    percent: 0,
                    section: None,
                })
            },
            Phase::Sections => {
                let total = self.chunks.len();
                if self.next < total {
                    let chunk = self.chunks[self.next].as_str();
                    let num = self.next + 1;
                    let prompt = if minutes {
                        let prev = match &self.tail {
                            Some(t) => Some(t.as_str()),
                            None => None,
                        };
                        build_chunk_extraction_acta_prompt(chunk, num, total, prev, model)
                    } else {
                        build_chunk_extraction_prompt(chunk, num, total, model)
                    };
                    Some(InferenceRequest {
                        prompt,
                        max_tokens: if minutes { 400 } else { 300 },
                        stream: false,
                        percent: map_progress(self.next, total),
                        section: Some((num, total)),
                    })
                } else {
                    let prompt = if minutes {
                        build_final_acta_prompt(self.ideas.as_str(), entities, model)
                    } else {
                        build_final_summary_prompt(self.ideas.as_str(), entities, model)
                    };
                    Some(InferenceRequest {
                        prompt,
                        max_tokens: if minutes { 900 } else { 500 },
                        stream: true,
                        percent: 75,
                        section: None,
                    })
                }
            },
        }
    }

    /// Takes the output of the call that `request` asked for and moves the run on.
    pub fn record(&mut self, output: &str)
        requires
            old(self).wf(),
            old(self).phase_spec() != Phase::Done,
        ensures
            final(self).wf(),
            final(self).model_spec() == old(self).model_spec(),
            final(self).mode_spec() == old(self).mode_spec(),
            final(self).entities_spec() == old(self).entities_spec(),
            final(self).transcript_spec() == old(self).transcript_spec(),
            final(self).chunks_view() == old(self).chunks_view(),
            old(self).phase_spec() == Phase::Direct || old(self).done_sections() == old(
                self,
            ).chunks_view().len() ==> final(self).phase_spec() == Phase::Done && final(self).report_spec()
                == Some(output@) && final(self).done_sections() == old(self).done_sections()
                && final(self).ideas_spec() == old(self).ideas_spec(),
            old(self).phase_spec() == Phase::Sections && old(self).done_sections() < old(
                self,
            ).chunks_view().len() ==> final(self).phase_spec() == Phase::Sections
                && final(self).done_sections() == old(self).done_sections() + 1
                && final(self).ideas_spec() == old(self).ideas_spec() + section_entry_spec(
                old(self).done_sections() + 1,
                output@,
            ) && final(self).tail_spec() == (if old(self).mode_spec() == OutputMode::Minutes {
                Some(continuity_tail_spec(output@))
            } else {
                None
            }) && final(self).report_spec() is None,
    {
        if self.phase == Phase::Direct || self.next == self.chunks.len() {
            self.phase = Phase::Done;
            self.report = Some(String::from_str(output));
        } else {
            let num = self.next + 1;
            push_section_entry(&mut self.ideas, num, output);
            if self.mode == OutputMode::Minutes {
                self.tail = Some(continuity_tail(output));
            }
            self.next = num;
        }
    }

    /// The report, once the last call has been recorded.
    pub fn report(&self) -> (r: Option<String>)
        ensures
            string_opt(r) == self.report_spec(),
    {
        match &self.report {
            Some(t) => Some(t.clone()),
            None => None,
        }
    }
}

/// Repository that hosts a text model, chosen by the first name fragment it contains.
pub open spec fn model_repo_spec(name: Seq<char>) -> Seq<char> {
    if contains_spec(name, "phi-4"@) {
        "microsoft/phi-4-gguf"@
    } else if contains_spec(name, "Phi"@) {
        "bartowski/Phi-3.5-mini-instruct-GGUF"@
    } else if contains_spec(name, "Llama-3.2-3B"@) {
        "bartowski/Llama-3.2-3B-Instruct-GGUF"@
    } else if contains_spec(name, "Meta-Llama-3.1-8B"@) {
        "bartowski/Meta-Llama-3.1-8B-Instruct-GGUF"@
    } else if contains_spec(name, "gemma-2-9b-it"@) {
        "bartowski/gemma-2-9b-it-GGUF"@
    } else if contains_spec(name, "Qwen2.5-14B-Instruct-IQ2_M.gguf"@) {
        "bartowski/Qwen2.5-14B-Instruct-GGUF"@
    } else if contains_spec(name, "Ministral-8B"@) {
        "bartowski/Ministral-8B-Instruct-2410-GGUF"@
    } else {
        "Qwen2.5-3B-Instruct-GGUF"@
    }
}

pub fn model_repo(model_name: &str) -> (r: &'static str)
    ensures
        r@ == model_repo_spec(model_name@),
{
    if contains(model_name, "phi-4") {
        "microsoft/phi-4-gguf"
    } else if contains(model_name, "Phi") {
        "bartowski/Phi-3.5-mini-instruct-GGUF"
    } else if contains(model_name, "Llama-3.2-3B") {
        "bartowski/Llama-3.2-3B-Instruct-GGUF"
    } else if contains(model_name, "Meta-Llama-3.1-8B") {
        "bartowski/Meta-Llama-3.1-8B-Instruct-GGUF"
    } else if contains(model_name, "gemma-2-9b-it") {
        "bartowski/gemma-2-9b-it-GGUF"
    } else if contains(model_name, "Qwen2.5-14B-Instruct-IQ2_M.gguf") {
        "bartowski/Qwen2.5-14B-Instruct-GGUF"
    } else if contains(model_name, "Ministral-8B") {
        "bartowski/Ministral-8B-Instruct-2410-GGUF"
    } else {
        "Qwen2.5-3B-Instruct-GGUF"
    }
}

/// Where a text model is fetched from when it is not on disk.
pub fn model_url(model_name: &str) -> (r: String)
    ensures
        r@ == "https://huggingface.co/"@ + model_repo_spec(model_name@) + "/resolve/main/"@ + model_name@,
{
    let mut r = String::from_str("https://huggingface.co/");
    r.append(model_repo(model_name));
    r.append("/resolve/main/");
    r.append(model_name);
    r
}

} // verus!
