use uniform_number::command::{is_quit_command, is_quit_word};

#[test]
fn quit_in_either_case() {
    assert!(is_quit_command("q"));
    // only a lower-casing of the input turns this into the quit word
    assert!(is_quit_command("Q"));
}

#[test]
fn other_inputs_do_not_quit() {
    assert!(!is_quit_command(""));
    assert!(!is_quit_command("qq"));
    assert!(!is_quit_command("quit"));
    assert!(!is_quit_command("04595257"));
    assert!(!is_quit_command("x"));
}

#[test]
fn quit_word_is_exact() {
    assert!(is_quit_word("q"));
    assert!(!is_quit_word("Q"));
    assert!(!is_quit_word(""));
    assert!(!is_quit_word("q "));
}
