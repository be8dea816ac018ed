use translate_core::batch::{assemble_chunks, format_line, into_chronological, plan_message};
use translate_core::{remove_emojis, BatchItem, OutputChunker};

#[test]
fn empty_messages_are_skipped_and_content_is_sanitized() {
    let empty = BatchItem {
        author_name: String::from("ann"),
        raw_text: String::new(),
    };
    assert_eq!(plan_message(&empty), None);
    let noisy = BatchItem {
        author_name: String::from("ben"),
        raw_text: String::from("Hello 😀 world"),
    };
    assert_eq!(plan_message(&noisy), Some(String::from("Hello  world")));
}

#[test]
fn pictographic_code_points_are_stripped() {
    assert_eq!(remove_emojis("Hello 😀 world"), "Hello  world");
    assert_eq!(remove_emojis("sun ☀ dingbat ✈ ok"), "sun  dingbat  ok");
    assert_eq!(remove_emojis("🚀🧪🪐🟠"), "");
    assert_eq!(remove_emojis("plain text"), "plain text");
    assert_eq!(remove_emojis(""), "");
}

#[test]
fn output_lines_keep_the_author_untouched() {
    assert_eq!(format_line("alice", "bonjour"), "alice: bonjour\n");
    assert_eq!(format_line("bob😀", "hi"), "bob😀: hi\n");
}

#[test]
fn newest_first_feeds_come_out_chronological() {
    let feed = vec!["C", "B", "A"];
    assert_eq!(into_chronological(feed), vec!["A", "B", "C"]);
}

#[test]
fn chunker_flushes_before_a_line_that_no_longer_fits() {
    let mut chunker = OutputChunker::new();
    let first = "a".repeat(1000);
    let second = "b".repeat(951);
    assert_eq!(chunker.push_line(&first), None);
    assert_eq!(chunker.push_line(&second), Some(first.clone()));
    assert_eq!(chunker.take_remainder(), Some(second.clone()));
    assert_eq!(chunker.take_remainder(), None);
}

#[test]
fn lines_totalling_just_over_the_bound_make_two_chunks() {
    let first = "a".repeat(1000);
    let second = "b".repeat(951);
    let chunks = assemble_chunks(&vec![first.clone(), second.clone()]);
    assert_eq!(chunks.len(), 2);
    assert!(chunks[0].chars().count() <= 1950);
    assert!(chunks[1].chars().count() <= 1950);
    assert_eq!(chunks[0], first);
    assert_eq!(chunks[1], second);
}

#[test]
fn lines_at_the_bound_stay_in_one_chunk() {
    let first = "a".repeat(1000);
    let second = "b".repeat(950);
    let chunks = assemble_chunks(&vec![first.clone(), second.clone()]);
    assert_eq!(chunks.len(), 1);
    assert_eq!(chunks[0], format!("{}{}", first, second));
}

#[test]
fn chunks_keep_chronological_order() {
    let lines = vec![
        String::from("ann: one\n"),
        String::from("ben: two\n"),
        String::from("cal: three\n"),
    ];
    let chunks = assemble_chunks(&lines);
    assert_eq!(chunks, vec![String::from("ann: one\nben: two\ncal: three\n")]);
}

#[test]
fn no_trailing_chunk_is_emitted_when_nothing_is_buffered() {
    let chunks = assemble_chunks(&Vec::new());
    assert!(chunks.is_empty());
}
