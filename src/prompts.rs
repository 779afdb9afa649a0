use vstd::prelude::*;
use vstd::string::StringExecFns;

use crate::templates;
use crate::text::{chars_of, contains, contains_spec, decimal_spec, push_decimal, trim, trim_spec};

verus! {

/// Chat-turn layout of a model family.
#[derive(Clone, Copy, PartialEq, Eq, Structural, Debug)]
pub enum ChatFamily {
    /// `<|system|>` / `<|user|>` / `<|assistant|>` turns.
    Phi,
    /// `<|start_header_id|>` turns.
    Llama,
    /// No system turn: system and user text share the user turn.
    Gemma,
    /// `[INST]` wrapping.
    Mistral,
    /// ChatML, the default.
    ChatMl,
}

impl ChatFamily {
    pub open spec fn open_spec(self) -> Seq<char> {
        match self {
            ChatFamily::Phi => "<|system|>\n"@,
            ChatFamily::Llama => "<|begin_of_text|><|start_header_id|>system<|end_header_id|>\n\n"@,
            ChatFamily::Gemma => "<start_of_turn>user\n"@,
            ChatFamily::Mistral => "<s>[INST]"@,
            ChatFamily::ChatMl => "<|im_start|>system\n"@,
        }
    }

    pub open spec fn mid_spec(self) -> Seq<char> {
        match self {
            ChatFamily::Phi => "<|end|>\n<|user|>\n"@,
            ChatFamily::Llama => "<|eot_id|>\n<|start_header_id|>user<|end_header_id|>\n\n"@,
            ChatFamily::Gemma => "\n\n"@,
            ChatFamily::Mistral => "\n\n"@,
            ChatFamily::ChatMl => "<|im_end|>\n<|im_start|>user\n"@,
        }
    }

    pub open spec fn close_spec(self) -> Seq<char> {
        match self {
            ChatFamily::Phi => "<|end|>\n<|assistant|>\n"@,
            ChatFamily::Llama => "<|eot_id|>\n<|start_header_id|>assistant<|end_header_id|>\n\n"@,
            ChatFamily::Gemma => "<end_of_turn>\n<start_of_turn>model\n"@,
            ChatFamily::Mistral => "[/INST]"@,
            ChatFamily::ChatMl => "<|im_end|>\n<|im_start|>assistant\n"@,
        }
    }

    /// The text whose presence in a lower-cased model name selects the family.
    pub open spec fn keyword_spec(self) -> Seq<char> {
        match self {
            ChatFamily::Phi => "phi"@,
            ChatFamily::Llama => "llama"@,
            ChatFamily::Gemma => "gemma"@,
            ChatFamily::Mistral => "ministral"@,
            ChatFamily::ChatMl => ""@,
        }
    }

    /// Text before the system turn.
    pub fn open(&self) -> (r: &'static str)
        ensures
            r@ == self.open_spec(),
    {
        match self {
            ChatFamily::Phi => "<|system|>\n",
            ChatFamily::Llama => "<|begin_of_text|><|start_header_id|>system<|end_header_id|>\n\n",
            ChatFamily::Gemma => "<start_of_turn>user\n",
            ChatFamily::Mistral => "<s>[INST]",
            ChatFamily::ChatMl => "<|im_start|>system\n",
        }
    }

    /// Text between the system turn and the user turn.
    pub fn mid(&self) -> (r: &'static str)
        ensures
            r@ == self.mid_spec(),
    {
        match self {
            ChatFamily::Phi => "<|end|>\n<|user|>\n",
            ChatFamily::Llama => "<|eot_id|>\n<|start_header_id|>user<|end_header_id|>\n\n",
            ChatFamily::Gemma => "\n\n",
            ChatFamily::Mistral => "\n\n",
            ChatFamily::ChatMl => "<|im_end|>\n<|im_start|>user\n",
        }
    }

    /// Text between the user turn and the start of the answer.
    pub fn close(&self) -> (r: &'static str)
        ensures
            r@ == self.close_spec(),
    {
        match self {
            ChatFamily::Phi => "<|end|>\n<|assistant|>\n",
            ChatFamily::Llama => "<|eot_id|>\n<|start_header_id|>assistant<|end_header_id|>\n\n",
            ChatFamily::Gemma => "<end_of_turn>\n<start_of_turn>model\n",
            ChatFamily::Mistral => "[/INST]",
            ChatFamily::ChatMl => "<|im_end|>\n<|im_start|>assistant\n",
        }
    }

    pub fn keyword(&self) -> (r: &'static str)
        ensures
            r@ == self.keyword_spec(),
    {
        match self {
            ChatFamily::Phi => "phi",
            ChatFamily::Llama => "llama",
            ChatFamily::Gemma => "gemma",
            ChatFamily::Mistral => "ministral",
            ChatFamily::ChatMl => "",
        }
    }
}

/// The families tried in order; the first whose keyword occurs wins.
pub open spec fn family_table() -> Seq<ChatFamily> {
    seq![ChatFamily::Phi, ChatFamily::Llama, ChatFamily::Gemma, ChatFamily::Mistral]
}

pub open spec fn family_from(lowered: Seq<char>, i: int) -> ChatFamily
    decreases family_table().len() - i,
{
    if i < 0 || i >= family_table().len() {
        ChatFamily::ChatMl
    } else if contains_spec(lowered, family_table()[i].keyword_spec()) {
        family_table()[i]
    } else {
        family_from(lowered, i + 1)
    }
}

/// The family of a lower-cased model name: the first of the table whose keyword it
/// contains, else ChatML.
pub open spec fn family_for(lowered: Seq<char>) -> ChatFamily {
    family_from(lowered, 0)
}

/// The family for a model name that is already lower case.
pub fn chat_family(lowered: &str) -> (r: ChatFamily)
    ensures
        r == family_for(lowered@),
{
    let table: Vec<ChatFamily> = vec![ChatFamily::Phi, ChatFamily::Llama, ChatFamily::Gemma, ChatFamily::Mistral];
    assert(table@ =~= family_table());
    let mut i: usize = 0;
    while i < table.len()
        invariant
            table@ == family_table(),
            i <= table.len(),
            family_for(lowered@) == family_from(lowered@, i as int),
        decreases table.len() - i,
    {
        let f = table[i];
        if contains(lowered, f.keyword()) {
            return f;
        }
        i = i + 1;
    }
    ChatFamily::ChatMl
}

/// A prompt laid out in the turns of `family`, ending where the answer begins.
pub open spec fn chat_wrap(
    family: ChatFamily,
    system: Seq<char>,
    user: Seq<char>,
    prefix: Seq<char>,
) -> Seq<char> {
    family.open_spec() + system + family.mid_spec() + user + family.close_spec() + prefix
}

/// Lays out a prompt in the turns of `family`.
pub fn wrap_chat(family: ChatFamily, system: &str, user: &str, assistant_prefix: &str) -> (r: String)
    ensures
        r@ == chat_wrap(family, system@, user@, assistant_prefix@),
{
    let mut r = String::from_str(family.open());
    r.append(system);
    r.append(family.mid());
    r.append(user);
    r.append(family.close());
    r.append(assistant_prefix);
    r
}

/// What `str::to_lowercase` makes of a text.
pub uninterp spec fn lower_of(s: Seq<char>) -> Seq<char>;

/// Relies on `str::to_lowercase`: the lower-case form, a function of the text alone.
#[verifier::external_body]
pub(crate) fn lowercase(s: &str) -> (r: String)
    ensures
        r@ == lower_of(s@),
{
    s.to_lowercase()
}

/// Lays out a prompt in the chat turns of the model's family, chosen by a case-insensitive
/// match on the model name.
pub fn format_chat_prompt(system: &str, user: &str, assistant_prefix: &str, model_name: &str) -> (r: String)
    ensures
        r@ == chat_wrap(family_for(lower_of(model_name@)), system@, user@, assistant_prefix@),
{
    let lowered = lowercase(model_name);
    let family = chat_family(lowered.as_str());
    wrap_chat(family, system, user, assistant_prefix)
}

/// How many times `c` occurs in `s`.
pub open spec fn count_char(s: Seq<char>, c: char) -> nat
    decreases s.len(),
{
    if s.len() == 0 {
        0
    } else {
        count_char(s.drop_last(), c) + if s.last() == c { 1nat } else { 0nat }
    }
}

/// Once trimmed, the text starts with `{`, ends with `}`, and holds as many of one as
/// of the other.
pub open spec fn plausible_json_object(s: Seq<char>) -> bool {
    let t = trim_spec(s);
    &&& t.len() > 0
    &&& t[0] == '{'
    &&& t.last() == '}'
    &&& count_char(t, '{') == count_char(t, '}')
    &&& count_char(t, '{') >= 1
}

/// Whether `s` looks like a JSON object: trimmed, it is brace-delimited and its braces
/// balance in number. A cheap guard against truncated or rambling model output.
pub fn is_plausible_json_object(s: &str) -> (r: bool)
    ensures
        r == plausible_json_object(s@),
{
    let t = chars_of(trim(s));
    let n = t.len();
    if n == 0 || t[0] != '{' || t[n - 1] != '}' {
        return false;
    }
    let mut opens: usize = 0;
    let mut closes: usize = 0;
    let mut i: usize = 0;
    while i < n
        invariant
            n == t.len(),
            i <= n,
            opens == count_char(t@.take(i as int), '{'),
            closes == count_char(t@.take(i as int), '}'),
            opens <= i,
            closes <= i,
        decreases n - i,
    {
        assert(t@.take(i + 1).drop_last() =~= t@.take(i as int));
        if t[i] == '{' {
            opens = opens + 1;
        }
        if t[i] == '}' {
            closes = closes + 1;
        }
        i = i + 1;
    }
    assert(t@.take(n as int) =~= t@);
    opens == closes && opens >= 1
}

pub open spec fn opt_view(o: Option<&str>) -> Option<Seq<char>> {
    match o {
        Some(s) => Some(s@),
        None => None,
    }
}

/// The grounding block put before a prompt's instructions: the entity record when there is
/// one that looks like a JSON object, else nothing.
pub open spec fn entities_block_spec(entities: Option<Seq<char>>) -> Seq<char> {
    match entities {
        Some(json) => if plausible_json_object(json) {
            templates::ENTITIES_HEAD@ + json + templates::ENTITIES_TAIL@
        } else {
            Seq::empty()
        },
        None => Seq::empty(),
    }
}

pub fn entities_block(entities: Option<&str>) -> (r: String)
    ensures
        r@ == entities_block_spec(opt_view(entities)),
{
    match entities {
        Some(json) => {
            if is_plausible_json_object(json) {
                let mut r = String::from_str(templates::ENTITIES_HEAD);
                r.append(json);
                r.append(templates::ENTITIES_TAIL);
                r
            } else {
                String::new()
            }
        },
        None => String::new(),
    }
}

/// Instructions for extracting findings from one section in summary mode.
pub open spec fn chunk_extraction_text(chunk: Seq<char>, num: nat, total: nat) -> Seq<char> {
    templates::CHUNK_HEAD@ + decimal_spec(num) + templates::OF@ + decimal_spec(total)
        + templates::CHUNK_RULES@ + chunk + templates::CHUNK_TAIL@
}

/// Prompt that asks for atomic bullet findings of section `chunk_num` of `total_chunks`.
pub fn build_chunk_extraction_prompt(
    chunk: &str,
    chunk_num: usize,
    total_chunks: usize,
    model_name: &str,
) -> (r: String)
    ensures
        r@ == chat_wrap(
            family_for(lower_of(model_name@)),
            templates::CHUNK_SYSTEM@,
            chunk_extraction_text(chunk@, chunk_num as nat, total_chunks as nat),
            "- "@,
        ),
{
    let mut u = String::from_str(templates::CHUNK_HEAD);
    push_decimal(&mut u, chunk_num);
    u.append(templates::OF);
    push_decimal(&mut u, total_chunks);
    u.append(templates::CHUNK_RULES);
    u.append(chunk);
    u.append(templates::CHUNK_TAIL);
    format_chat_prompt(templates::CHUNK_SYSTEM, u.as_str(), "- ", model_name)
}

/// The answer prefix of summary-mode reports.
pub open spec fn report_prefix() -> Seq<char> {
    "## 1. Propósito y Contexto\n"@
}

/// Instructions for consolidating the sections' findings into a summary.
pub open spec fn final_summary_text(ideas: Seq<char>, entities: Option<Seq<char>>) -> Seq<char> {
    entities_block_spec(entities) + templates::FINAL_SUMMARY_HEAD@ + ideas + templates::REPORT_LAYOUT@
}

/// Prompt that consolidates all sections' findings into one summary report.
pub fn build_final_summary_prompt(extracted_ideas: &str, entities: Option<&str>, model_name: &str) -> (r: String)
    ensures
        r@ == chat_wrap(
            family_for(lower_of(model_name@)),
            templates::SYSTEM_PROMPT@,
            final_summary_text(extracted_ideas@, opt_view(entities)),
            report_prefix(),
        ),
{
    let mut u = entities_block(entities);
    u.append(templates::FINAL_SUMMARY_HEAD);
    u.append(extracted_ideas);
    u.append(templates::REPORT_LAYOUT);
    format_chat_prompt(templates::SYSTEM_PROMPT, u.as_str(), "## 1. Propósito y Contexto\n", model_name)
}

/// Instructions for summarizing a short transcript directly.
pub open spec fn summary_text(transcript: Seq<char>, entities: Option<Seq<char>>) -> Seq<char> {
    entities_block_spec(entities) + templates::SUMMARY_HEAD@ + transcript + templates::REPORT_LAYOUT@
}

/// Prompt that summarizes a short transcript in one pass.
pub fn build_summary_prompt(transcript: &str, entities: Option<&str>, model_name: &str) -> (r: String)
    ensures
        r@ == chat_wrap(
            family_for(lower_of(model_name@)),
            templates::SYSTEM_PROMPT@,
            summary_text(transcript@, opt_view(entities)),
            report_prefix(),
        ),
{
    let mut u = entities_block(entities);
    u.append(templates::SUMMARY_HEAD);
    u.append(transcript);
    u.append(templates::REPORT_LAYOUT);
    format_chat_prompt(templates::SYSTEM_PROMPT, u.as_str(), "## 1. Propósito y Contexto\n", model_name)
}

/// The note that carries the end of the previous section into the next one.
pub open spec fn continuity_text(prev: Option<Seq<char>>) -> Seq<char> {
    match prev {
        Some(ctx) => templates::CONTINUITY_HEAD@ + ctx + templates::CONTINUITY_TAIL@,
        None => Seq::empty(),
    }
}

/// Instructions for drafting the formal paragraph of one section in minutes mode.
pub open spec fn minutes_chunk_text(
    chunk: Seq<char>,
    num: nat,
    total: nat,
    prev: Option<Seq<char>>,
) -> Seq<char> {
    continuity_text(prev) + templates::SECTION@ + decimal_spec(num) + templates::OF@
        + decimal_spec(total) + templates::MINUTES_CHUNK_RULES@ + chunk + templates::MINUTES_CHUNK_TAIL@
}

/// Prompt that asks for a dense formal paragraph of section `chunk_num` of `total_chunks`,
/// seeded with the close of the previous section when there is one.
pub fn build_chunk_extraction_acta_prompt(
    chunk: &str,
    chunk_num: usize,
    total_chunks: usize,
    prev_context: Option<&str>,
    model_name: &str,
) -> (r: String)
    ensures
        r@ == chat_wrap(
            family_for(lower_of(model_name@)),
            templates::MINUTES_CHUNK_SYSTEM@,
            minutes_chunk_text(chunk@, chunk_num as nat, total_chunks as nat, opt_view(prev_context)),
            ""@,
        ),
{
    let mut u = String::new();
    match prev_context {
        Some(ctx) => {
            u.append(templates::CONTINUITY_HEAD);
            u.append(ctx);
            u.append(templates::CONTINUITY_TAIL);
        },
        None => {},
    }
    u.append(templates::SECTION);
    push_decimal(&mut u, chunk_num);
    u.append(templates::OF);
    push_decimal(&mut u, total_chunks);
    u.append(templates::MINUTES_CHUNK_RULES);
    u.append(chunk);
    u.append(templates::MINUTES_CHUNK_TAIL);
    format_chat_prompt(templates::MINUTES_CHUNK_SYSTEM, u.as_str(), "", model_name)
}

/// The answer prefix of minutes.
pub open spec fn minutes_prefix() -> Seq<char> {
    "ORDEN DEL DÍA\n"@
}

/// Instructions for consolidating the sections' paragraphs into minutes.
pub open spec fn final_minutes_text(ideas: Seq<char>, entities: Option<Seq<char>>) -> Seq<char> {
    entities_block_spec(entities) + templates::FINAL_MINUTES_HEAD@ + ideas + templates::FINAL_MINUTES_TAIL@
}

/// Prompt that consolidates all sections' paragraphs into one set of minutes.
pub fn build_final_acta_prompt(extracted_ideas: &str, entities: Option<&str>, model_name: &str) -> (r: String)
    ensures
        r@ == chat_wrap(
            family_for(lower_of(model_name@)),
            templates::SYSTEM_PROMPT_MINUTES@,
            final_minutes_text(extracted_ideas@, opt_view(entities)),
            minutes_prefix(),
        ),
{
    let mut u = entities_block(entities);
    u.append(templates::FINAL_MINUTES_HEAD);
    u.append(extracted_ideas);
    u.append(templates::FINAL_MINUTES_TAIL);
    format_chat_prompt(templates::SYSTEM_PROMPT_MINUTES, u.as_str(), "ORDEN DEL DÍA\n", model_name)
}

/// Instructions for drafting minutes of a short transcript directly.
pub open spec fn minutes_text(transcript: Seq<char>, entities: Option<Seq<char>>) -> Seq<char> {
    entities_block_spec(entities) + templates::MINUTES_HEAD@ + transcript + templates::MINUTES_TAIL@
}

/// Prompt that drafts the minutes of a short transcript in one pass.
pub fn build_acta_prompt(transcript: &str, entities: Option<&str>, model_name: &str) -> (r: String)
    ensures
        r@ == chat_wrap(
            family_for(lower_of(model_name@)),
            templates::SYSTEM_PROMPT_MINUTES@,
            minutes_text(transcript@, opt_view(entities)),
            minutes_prefix(),
        ),
{
    let mut u = entities_block(entities);
    u.append(templates::MINUTES_HEAD);
    u.append(transcript);
    u.append(templates::MINUTES_TAIL);
    format_chat_prompt(templates::SYSTEM_PROMPT_MINUTES, u.as_str(), "ORDEN DEL DÍA\n", model_name)
}

/// Prompt for the entity pass: a single user turn asking for a minified JSON object of the
/// schema's shape, with the answer opened by `{`.
pub open spec fn entity_extraction_spec(text: Seq<char>) -> Seq<char> {
    templates::ENTITY_OPEN@ + templates::ENTITY_HEAD@ + templates::ENTITY_SCHEMA@
        + templates::ENTITY_MID@ + text + templates::ENTITY_CLOSE@
}

pub fn build_entity_extraction_prompt(text: &str) -> (r: String)
    ensures
        r@ == entity_extraction_spec(text@),
{
    let mut r = String::from_str(templates::ENTITY_OPEN);
    r.append(templates::ENTITY_HEAD);
    r.append(templates::ENTITY_SCHEMA);
    r.append(templates::ENTITY_MID);
    r.append(text);
    r.append(templates::ENTITY_CLOSE);
    r
}

} // verus!
