use hunter2::mask::{mask_str, HiddenWriter};
use hunter2::Hidden;

#[test]
fn it_works() {
    let result = 2 + 2;
    assert_eq!(result, 4);
}

#[test]
fn mask_replaces_every_character() {
    assert_eq!(mask_str("ferris is cute"), "**************");
}

#[test]
fn mask_keeps_line_breaks() {
    assert_eq!(mask_str("ab\ncd"), "**\n**");
    assert_eq!(mask_str("\n\n"), "\n\n");
}

#[test]
fn mask_of_empty_is_empty() {
    assert_eq!(mask_str(""), "");
}

#[test]
fn mask_counts_characters_not_bytes() {
    // One mask character per textual character, whatever its encoded width.
    assert_eq!(mask_str("héllo"), "*****");
    assert_eq!(mask_str("日本語"), "***");
}

#[test]
fn mask_character_itself_stays_masked() {
    assert_eq!(mask_str("*a*"), "***");
}

#[test]
fn mask_preserves_line_lengths() {
    let original = "first line\nsecond\n";
    let masked = mask_str(original);
    let original_lines: Vec<&str> = original.split('\n').collect();
    let masked_lines: Vec<&str> = masked.split('\n').collect();
    assert_eq!(original_lines.len(), masked_lines.len());
    for (o, m) in original_lines.iter().zip(masked_lines.iter()) {
        assert_eq!(o.chars().count(), m.chars().count());
        assert!(m.chars().all(|c| c == '*'));
    }
}

#[test]
fn writer_masks_characters() {
    let mut w = HiddenWriter::new();
    w.write_char('a');
    w.write_char('\n');
    w.write_char('b');
    assert_eq!(w.into_output(), "*\n*");
}

#[test]
fn writer_masks_whole_texts() {
    let mut w = HiddenWriter::new();
    w.write_str("top secret");
    w.write_str("\nmore");
    assert_eq!(w.into_output(), "**********\n****");
}

#[test]
fn writer_starts_empty() {
    let w = HiddenWriter::new();
    assert_eq!(w.into_output(), "");
}

#[test]
fn hidden_wraps_a_borrow() {
    let value: u64 = 254;
    let wrapped = Hidden::from(&value);
    assert_eq!(*wrapped.0, 254);
}
