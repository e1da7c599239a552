use loon::polish::{clean_line, fill_prompt, polish_request, strip_timestamps};

#[test]
fn timestamps_are_stripped_per_line() {
    let text = "[00:01] hello there\n  12:34:56   second line  \nno stamp\n[1:02]";
    assert_eq!(
        strip_timestamps(text),
        Some("hello there\nsecond line\nno stamp\n".to_string())
    );
}

#[test]
fn only_leading_timestamps_go() {
    assert_eq!(strip_timestamps("meet at 10:30 [11:00]"), Some("meet at 10:30 [11:00]".to_string()));
    assert_eq!(strip_timestamps(""), Some(String::new()));
}

#[test]
fn clean_line_trims() {
    assert_eq!(clean_line("  word  "), "word");
}

#[test]
fn prompt_placeholder_is_filled() {
    assert_eq!(fill_prompt("Fix: {{transcription}}!", "hi"), "Fix: hi!");
    assert_eq!(fill_prompt("no placeholder", "hi"), "no placeholder");
    assert_eq!(fill_prompt("{{transcription}}", "x"), "x");
    assert_eq!(fill_prompt("{{transcription}}/{{transcription}}", "x"), "x/x");
}

#[test]
fn polish_request_shape() {
    let req = polish_request("[00:00:05] um hello", "llama3", "Polish: {{transcription}}").unwrap();
    assert_eq!(req.model, "llama3");
    assert_eq!(req.prompt, "Polish: um hello");
    assert!(!req.stream);
}
