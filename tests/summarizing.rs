use transcript_pipeline::inference::{generation_progress, prompt_batch, prompt_batch_count, TokenText};
use transcript_pipeline::prompts::{
    build_acta_prompt, build_chunk_extraction_acta_prompt, build_chunk_extraction_prompt,
    build_entity_extraction_prompt, build_final_summary_prompt, build_summary_prompt,
    chat_family, entities_block, format_chat_prompt, is_plausible_json_object, ChatFamily,
};
use transcript_pipeline::summarizer::{
    accept_entity_output, continuity_tail, entity_source, map_progress, model_or_default,
    model_repo, model_url, output_mode, uses_direct_path, OutputMode, Phase, SummaryRun,
};

#[test]
fn json_validation_rejects_malformed() {
    assert!(!is_plausible_json_object("{not json"));
    assert!(!is_plausible_json_object("{{}"));
    assert!(!is_plausible_json_object(""));
    assert!(!is_plausible_json_object("}{"));
}

#[test]
fn json_validation_accepts_objects() {
    assert!(is_plausible_json_object("{}"));
    assert!(is_plausible_json_object("  {\"personas\":[\"Ana\"],\"cifras\":[{\"valor\":\"3\"}]}\n"));
}

#[test]
fn entities_block_only_for_plausible_records() {
    assert_eq!(entities_block(None), "");
    assert_eq!(entities_block(Some("{not json")), "");
    let b = entities_block(Some("{}"));
    assert!(b.starts_with("CANDIDATOS DE ENTIDADES"));
    assert!(b.ends_with(":\n{}\n\n"));
}

#[test]
fn entity_output_gets_its_brace_back() {
    assert_eq!(accept_entity_output("\"personas\":[]}"), Some("{\"personas\":[]}".to_string()));
    assert_eq!(accept_entity_output("}"), Some("{}".to_string()));
    assert_eq!(accept_entity_output("\"personas\":["), None);
}

#[test]
fn entity_source_is_first_five_thousand_chars() {
    let text = "ñ".repeat(6000);
    assert_eq!(entity_source(&text).chars().count(), 5000);
    assert_eq!(entity_source("corto"), "corto");
}

#[test]
fn chat_family_by_model_name() {
    assert_eq!(chat_family("phi-3.5-mini"), ChatFamily::Phi);
    assert_eq!(chat_family("meta-llama-3.1-8b"), ChatFamily::Llama);
    assert_eq!(chat_family("gemma-2-9b-it"), ChatFamily::Gemma);
    assert_eq!(chat_family("ministral-8b"), ChatFamily::Mistral);
    assert_eq!(chat_family("qwen2.5-3b"), ChatFamily::ChatMl);
    assert_eq!(chat_family("Phi-3.5"), ChatFamily::ChatMl);
}

#[test]
fn chat_prompt_layouts() {
    assert_eq!(
        format_chat_prompt("S", "U", "P", "Phi-3.5-mini"),
        "<|system|>\nS<|end|>\n<|user|>\nU<|end|>\n<|assistant|>\nP"
    );
    assert_eq!(
        format_chat_prompt("S", "U", "P", "Llama-3.2-3B-Instruct-Q4_K_M.gguf"),
        "<|begin_of_text|><|start_header_id|>system<|end_header_id|>\n\nS<|eot_id|>\n<|start_header_id|>user<|end_header_id|>\n\nU<|eot_id|>\n<|start_header_id|>assistant<|end_header_id|>\n\nP"
    );
    assert_eq!(
        format_chat_prompt("S", "U", "P", "GEMMA-2"),
        "<start_of_turn>user\nS\n\nU<end_of_turn>\n<start_of_turn>model\nP"
    );
    assert_eq!(format_chat_prompt("S", "U", "P", "Ministral-8B"), "<s>[INST]S\n\nU[/INST]P");
    assert_eq!(
        format_chat_prompt("S", "U", "P", "Qwen2.5"),
        "<|im_start|>system\nS<|im_end|>\n<|im_start|>user\nU<|im_end|>\n<|im_start|>assistant\nP"
    );
}

#[test]
fn extraction_prompt_numbers_sections() {
    let p = build_chunk_extraction_prompt("texto del fragmento", 2, 13, "qwen");
    assert!(p.contains("Estás procesando la sección 2 de 13 de una transcripción larga."));
    assert!(p.contains("### FRAGMENTO:\ntexto del fragmento\n\n### EXTRACCIÓN:"));
    assert!(p.ends_with("<|im_start|>assistant\n- "));
}

#[test]
fn minutes_extraction_carries_previous_tail() {
    let p = build_chunk_extraction_acta_prompt("frag", 3, 4, Some("se acordó X"), "llama");
    assert!(p.contains("La sección anterior cerró con:\n\"se acordó X\"\nContinúa desde ahí sin repetir lo ya dicho.\n\nSección 3 de 4.\n\n"));
    let q = build_chunk_extraction_acta_prompt("frag", 1, 4, None, "llama");
    assert!(q.contains("user<|end_header_id|>\n\nSección 1 de 4.\n\n"));
}

#[test]
fn direct_prompts_embed_transcript_and_entities() {
    let s = build_summary_prompt("la transcripción", Some("{\"a\":1}"), "phi");
    assert!(s.contains("{\"a\":1}\n\n### REGLAS DE ORO DE SALIDA:"));
    assert!(s.contains("### TRANSCRIPCIÓN A PROCESAR:\nla transcripción\n\n### ESTRUCTURA DEL REPORTE:"));
    assert!(s.ends_with("<|assistant|>\n## 1. Propósito y Contexto\n"));
    let a = build_acta_prompt("la sesión", Some("{roto"), "phi");
    assert!(a.contains("<|user|>\nRedacta el acta formal de esta sesión."));
    assert!(a.ends_with("ORDEN DEL DÍA\n"));
    let f = build_final_summary_prompt("\n### Sección 1\nx\n", None, "phi");
    assert!(f.contains("### IDEAS CLAVE EXTRAÍDAS:\n\n### Sección 1\nx\n\n\n### ESTRUCTURA"));
}

#[test]
fn entity_prompt_opens_the_object() {
    let p = build_entity_extraction_prompt("Ana votó");
    assert!(p.starts_with("<start_of_turn>user\nExtrae todos los datos"));
    assert!(p.contains("\"votaciones\":[{\"tema\":\"\",\"resultado\":\"\"}]}\n\nTEXTO:\nAna votó<end_of_turn>"));
    assert!(p.ends_with("<start_of_turn>model\n{"));
}

#[test]
fn direct_path_up_to_six_thousand_chars() {
    assert!(uses_direct_path(&"a".repeat(6000)));
    assert!(!uses_direct_path(&"a".repeat(6001)));
    assert!(uses_direct_path(&"é".repeat(6000)));
    let run = SummaryRun::new(&"a ".repeat(3000), "qwen", OutputMode::Summary, None);
    let q = run.request().unwrap();
    assert!(q.stream);
    assert_eq!(q.max_tokens, 500);
    assert_eq!(q.section, None);
}

#[test]
fn six_thousand_and_one_chars_are_chunked() {
    let text = format!("{}b", "a ".repeat(3000));
    assert_eq!(text.chars().count(), 6001);
    let run = SummaryRun::new(&text, "qwen", OutputMode::Summary, None);
    let q = run.request().unwrap();
    assert!(!q.stream);
    assert_eq!(q.max_tokens, 300);
    assert_eq!(q.section, Some((1, 2)));
}

#[test]
fn summary_run_maps_then_reduces() {
    let text = "palabra ".repeat(1500);
    let mut run = SummaryRun::new(&text, "qwen", OutputMode::Summary, Some("{}"));
    let q1 = run.request().unwrap();
    assert_eq!(q1.section, Some((1, 3)));
    assert_eq!(q1.percent, 0);
    run.record("- idea uno");
    let q2 = run.request().unwrap();
    assert_eq!(q2.section, Some((2, 3)));
    assert_eq!(q2.percent, 23);
    run.record("- idea dos");
    let q3 = run.request().unwrap();
    assert_eq!(q3.percent, 46);
    run.record("- idea tres");
    let fin = run.request().unwrap();
    assert!(fin.stream);
    assert_eq!(fin.max_tokens, 500);
    assert_eq!(fin.percent, 75);
    assert!(fin.prompt.contains(
        "\n### Sección 1\n- idea uno\n\n### Sección 2\n- idea dos\n\n### Sección 3\n- idea tres\n"
    ));
    assert!(fin.prompt.contains("CANDIDATOS DE ENTIDADES"));
    assert!(run.report().is_none());
    run.record("REPORTE");
    assert!(run.request().is_none());
    assert_eq!(run.report(), Some("REPORTE".to_string()));
    assert_eq!(run.phase(), Phase::Done);
}

#[test]
fn minutes_run_threads_continuity() {
    let text = "palabra ".repeat(1000);
    let mut run = SummaryRun::new(&text, "llama", OutputMode::Minutes, None);
    let q1 = run.request().unwrap();
    assert_eq!(q1.max_tokens, 400);
    assert!(!q1.prompt.contains("La sección anterior"));
    run.record("Acto seguido se aprobó el acta anterior.");
    let q2 = run.request().unwrap();
    assert!(q2.prompt.contains("La sección anterior cerró con:\n\"seguido se aprobó el acta anterior.\""));
    run.record("Se levantó la sesión.");
    let fin = run.request().unwrap();
    assert_eq!(fin.max_tokens, 900);
    assert!(fin.prompt.ends_with("ORDEN DEL DÍA\n"));
}

#[test]
fn direct_minutes_budget() {
    let mut run = SummaryRun::new("breve", "llama", OutputMode::Minutes, None);
    let q = run.request().unwrap();
    assert_eq!(q.max_tokens, 700);
    assert!(q.prompt.contains("TRANSCRIPCIÓN:\nbreve\n\n"));
    run.record("acta");
    assert_eq!(run.report(), Some("acta".to_string()));
}

#[test]
fn continuity_tail_starts_on_a_word() {
    assert_eq!(continuity_tail("  corto  "), "corto");
    let long = format!("{} final de la sección", "x".repeat(300));
    let tail = continuity_tail(&long);
    assert_eq!(tail, "final de la sección");
    let one_word = "y".repeat(400);
    assert_eq!(continuity_tail(&one_word).chars().count(), 250);
}

#[test]
fn map_progress_covers_seventy_percent() {
    assert_eq!(map_progress(0, 4), 0);
    assert_eq!(map_progress(3, 4), 52);
}

#[test]
fn mode_and_model_defaults() {
    assert_eq!(output_mode(Some("acta")), OutputMode::Minutes);
    assert_eq!(output_mode(Some("summary")), OutputMode::Summary);
    assert_eq!(output_mode(Some("Acta")), OutputMode::Summary);
    assert_eq!(output_mode(None), OutputMode::Summary);
    assert_eq!(model_or_default(None), "Llama-3.2-3B-Instruct-Q4_K_M.gguf");
    assert_eq!(model_or_default(Some("m.gguf")), "m.gguf");
}

#[test]
fn model_repositories() {
    assert_eq!(model_repo("phi-4-Q4.gguf"), "microsoft/phi-4-gguf");
    assert_eq!(model_repo("Phi-3.5-mini.gguf"), "bartowski/Phi-3.5-mini-instruct-GGUF");
    assert_eq!(model_repo("gemma-2-9b-it-IQ4_XS.gguf"), "bartowski/gemma-2-9b-it-GGUF");
    assert_eq!(model_repo("otro.gguf"), "Qwen2.5-3B-Instruct-GGUF");
    assert_eq!(
        model_url("Llama-3.2-3B-Instruct-Q4_K_M.gguf"),
        "https://huggingface.co/bartowski/Llama-3.2-3B-Instruct-GGUF/resolve/main/Llama-3.2-3B-Instruct-Q4_K_M.gguf"
    );
}

#[test]
fn prompt_batches() {
    assert_eq!(prompt_batch_count(0), 0);
    assert_eq!(prompt_batch_count(512), 1);
    assert_eq!(prompt_batch_count(1025), 3);
    assert_eq!(prompt_batch(1025, 2), (1024, 1025));
}

#[test]
fn generation_progress_every_tenth_token() {
    assert_eq!(generation_progress(0, 500), Some(0));
    assert_eq!(generation_progress(250, 500), Some(50));
    assert_eq!(generation_progress(251, 500), None);
}

#[test]
fn token_text_waits_for_whole_characters() {
    let mut t = TokenText::new();
    assert_eq!(t.push_token(b" Hola "), Some(" Hola ".to_string()));
    assert_eq!(t.push_token(&[0xC3]), None);
    assert_eq!(t.push_token(&[0xA9, b'!']), Some("é!".to_string()));
    assert_eq!(t.push_token(b"  "), Some("  ".to_string()));
    assert_eq!(t.finish(), "Hola é!");
}
