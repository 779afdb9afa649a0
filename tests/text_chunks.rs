use transcript_pipeline::chunking::split_into_chunks;
use transcript_pipeline::loop_detect::has_transcription_loop;
use transcript_pipeline::text::{contains, trim};

fn words(s: &str) -> Vec<String> {
    s.split_whitespace().map(|w| w.to_string()).collect()
}

#[test]
fn trim_removes_unicode_space() {
    assert_eq!(trim("\u{3000} hola mundo\n\t"), "hola mundo");
    assert_eq!(trim("   "), "");
    assert_eq!(trim(""), "");
}

#[test]
fn contains_is_case_sensitive() {
    assert!(contains("Meta-Llama-3.1-8B", "Llama"));
    assert!(!contains("meta-llama", "Llama"));
    assert!(contains("abc", ""));
    assert!(!contains("ab", "abc"));
}

#[test]
fn chunks_cut_at_last_space_in_window() {
    let chunks = split_into_chunks("aaa bbb ccc ddd", 9);
    assert_eq!(chunks, vec!["aaa bbb", "ccc ddd"]);
}

#[test]
fn short_text_is_one_chunk() {
    assert_eq!(split_into_chunks("  uno dos  ", 50), vec!["uno dos"]);
}

#[test]
fn empty_and_blank_text_give_no_chunks() {
    assert!(split_into_chunks("", 10).is_empty());
    assert!(split_into_chunks("      \n  ", 3).is_empty());
}

#[test]
fn long_word_is_kept_whole() {
    let chunks = split_into_chunks("ab supercalifragilistico cd", 5);
    assert_eq!(chunks, vec!["ab", "supercalifragilistico", "cd"]);
}

#[test]
fn chunks_keep_word_sequence() {
    let mut text = String::new();
    for i in 0..3000 {
        text.push_str(&format!("palabra{} ", i % 97));
        if i % 13 == 0 {
            text.push_str("\n ");
        }
    }
    let chunks = split_into_chunks(&text, 5000);
    assert!(chunks.len() > 1);
    for c in &chunks {
        assert!(!c.is_empty());
        assert!(c.chars().count() <= 5000);
    }
    assert_eq!(words(&chunks.join(" ")), words(&text));
}

#[test]
fn chunks_count_characters_not_bytes() {
    // 'é' is two bytes: a byte-based window would cut earlier.
    let text = "ééé ééé ééé";
    assert_eq!(split_into_chunks(text, 8), vec!["ééé ééé", "ééé"]);
}

#[test]
fn loop_needs_twenty_five_words() {
    assert!(!has_transcription_loop("uno dos tres"));
    assert!(!has_transcription_loop(""));
}

#[test]
fn phrase_five_times_is_a_loop() {
    let phrase = "suscríbete al canal por favor ";
    assert!(has_transcription_loop(&phrase.repeat(5)));
    assert!(has_transcription_loop(&format!("inicio {}fin", phrase.repeat(6))));
}

#[test]
fn phrase_four_times_is_not_a_loop() {
    let phrase = "suscríbete al canal por favor ";
    assert!(!has_transcription_loop(&phrase.repeat(4)));
    assert!(!has_transcription_loop(&format!("a {}b {}", phrase.repeat(4), phrase)));
}

#[test]
fn two_word_phrase_five_times_is_not_a_loop() {
    assert!(!has_transcription_loop("hello world hello world hello world hello world hello world"));
}
