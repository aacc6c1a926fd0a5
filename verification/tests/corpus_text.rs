use passablewords::{check_uniqueness, split_lines, Corpus, PasswordError};

#[test]
fn splits_at_line_feeds() {
    assert_eq!(split_lines("a\nb\nc"), vec!["a", "b", "c"]);
    assert_eq!(split_lines(""), Vec::<String>::new());
    assert_eq!(split_lines("lonely"), vec!["lonely"]);
}

#[test]
fn final_line_ending_is_optional() {
    assert_eq!(split_lines("a\nb\n"), vec!["a", "b"]);
    assert_eq!(split_lines("a\nb"), vec!["a", "b"]);
    assert_eq!(split_lines("\n"), vec![""]);
}

#[test]
fn carriage_returns_belong_to_line_endings_only() {
    assert_eq!(split_lines("a\r\nb\r\n"), vec!["a", "b"]);
    // A carriage return not followed by a line feed stays in the line.
    assert_eq!(split_lines("a\rb\nc"), vec!["a\rb", "c"]);
    assert_eq!(split_lines("a\r"), vec!["a\r"]);
    assert_eq!(split_lines("\r\n"), vec![""]);
}

#[test]
fn corpus_from_text_indexes_each_line() {
    let corpus = Corpus::from_text("password\nletmein\nqwerty\n");
    assert_eq!(
        check_uniqueness("password", &corpus),
        Err(PasswordError::TooCommon)
    );
    assert_eq!(
        check_uniqueness("letmein", &corpus),
        Err(PasswordError::TooCommon)
    );
    assert_eq!(
        check_uniqueness("qwerty", &corpus),
        Err(PasswordError::TooCommon)
    );
    // The trailing line ending opens no empty corpus entry.
    assert_eq!(check_uniqueness("", &corpus), Ok(()));
    assert_eq!(check_uniqueness("hunter2", &corpus), Ok(()));
}

#[test]
fn corpus_from_text_strips_windows_line_endings() {
    let corpus = Corpus::from_text("password\r\nletmein\r\n");
    assert_eq!(
        check_uniqueness("password", &corpus),
        Err(PasswordError::TooCommon)
    );
    assert_eq!(check_uniqueness("password\r", &corpus), Ok(()));
}

#[test]
fn empty_corpus_lines_match_only_empty_passwords() {
    let corpus = Corpus::from_text("a\n\nb");
    assert_eq!(check_uniqueness("", &corpus), Err(PasswordError::TooCommon));
    assert_eq!(check_uniqueness("a", &corpus), Err(PasswordError::TooCommon));
    assert_eq!(check_uniqueness("c", &corpus), Ok(()));
}

#[test]
fn corpus_from_lines_matches_exactly_its_lines() {
    let corpus = Corpus::from_lines(&vec!["password".to_string(), String::new()]);
    assert_eq!(
        check_uniqueness("password", &corpus),
        Err(PasswordError::TooCommon)
    );
    assert_eq!(check_uniqueness("", &corpus), Err(PasswordError::TooCommon));
    assert_eq!(check_uniqueness("password\n", &corpus), Ok(()));
}
