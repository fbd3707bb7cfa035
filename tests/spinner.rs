use typout::text::{count_newlines, decimal_string, join, replace};
use typout::Spinner;

#[test]
fn next_frame_cycles() {
    let mut s = Spinner::default();
    assert_eq!(s.next_frame(), "⠋");
    assert_eq!(s.next_frame(), "⠙");
    for _ in 0..8 {
        s.next_frame();
    }
    assert_eq!(s.next_frame(), "⠋");
}

#[test]
fn next_frame_without_frames_is_empty() {
    let mut s = Spinner::default();
    s.set_frames(Vec::new());
    assert_eq!(s.next_frame(), "");
    assert_eq!(s.next_message("m"), " m");
}

#[test]
fn next_message_fills_template() {
    let mut s = Spinner::default();
    assert_eq!(s.next_message("Loading"), "⠋ Loading");
    assert_eq!(s.next_message("Loading"), "⠙ Loading");
    assert_eq!(s.speed(), 30);
}

#[test]
fn template_placeholders_repeat() {
    let mut s = Spinner::new(vec!["*".to_string()], 5, "#{frame}#{frame} #{message}!".to_string());
    assert_eq!(s.next_message("#{frame}"), "** #{frame}!");
}

#[test]
fn replace_is_left_to_right() {
    assert_eq!(replace("aaaa", "aa", "b"), "bb");
    assert_eq!(replace("xaaay", "aa", "-"), "x-ay");
    assert_eq!(replace("", "a", "b"), "");
    assert_eq!(replace("héllo", "l", "L"), "héLLo");
}

#[test]
fn text_helpers() {
    assert_eq!(count_newlines("a\nb\n\n"), 3);
    assert_eq!(count_newlines(""), 0);
    assert_eq!(decimal_string(0), "0");
    assert_eq!(decimal_string(1200), "1200");
    assert_eq!(decimal_string(u64::MAX), "18446744073709551615");
    assert_eq!(join(&vec!["a".to_string(), "".to_string(), "bc".to_string()]), "abc");
}
