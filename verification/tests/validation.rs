use passablewords::{
    check_entropy, check_length, check_password, check_uniqueness, verdict_of_outcome, Corpus,
    EstimatorOutcome, PasswordError,
};

fn common_corpus() -> Corpus {
    let lines = vec![
        "password".to_string(),
        "123456".to_string(),
        "qwerty".to_string(),
    ];
    Corpus::from_lines(&lines)
}

#[test]
fn it_validates_length() {
    let too_short = check_length("short");
    let long_enough = check_length("this is a long password");

    assert_eq!(too_short, Err(PasswordError::TooShort));
    assert_eq!(long_enough, Ok(()));
}

#[test]
fn it_validates_uniqueness() {
    let corpus = common_corpus();
    let too_common = check_uniqueness("password", &corpus);
    let unique_enough = check_uniqueness("this is a unique password", &corpus);

    assert_eq!(too_common, Err(PasswordError::TooCommon));
    assert_eq!(unique_enough, Ok(()));
}

#[test]
fn it_validates_entropy() {
    let too_simple = check_entropy("NotTooRandom");
    let random_enough = check_entropy("Th1s iS a Sup3rR4ndom PassW0rd!");

    assert_eq!(too_simple, Err(PasswordError::TooSimple));
    assert_eq!(random_enough, Ok(()));
}

#[test]
fn it_validates_a_password() {
    let corpus = common_corpus();
    let too_short = check_password("short", &corpus);
    let too_common = check_password("password", &corpus);
    let too_simple = check_password("NotTooRandom", &corpus);
    let ok_password = check_password("Th1s iS a Sup3rR4ndom PassW0rd!", &corpus);

    assert_eq!(too_short, Err(PasswordError::TooShort));
    assert_eq!(too_common, Err(PasswordError::TooCommon));
    assert_eq!(too_simple, Err(PasswordError::TooSimple));
    assert_eq!(ok_password, Ok(()));
}

#[test]
fn length_boundary_is_eight_characters() {
    assert_eq!(check_length("1234567"), Err(PasswordError::TooShort));
    assert_eq!(check_length("12345678"), Ok(()));
}

#[test]
fn length_counts_characters_not_bytes() {
    // Seven characters, fourteen bytes: still too short.
    assert_eq!(check_length("äëïöüÿé"), Err(PasswordError::TooShort));
    // Eight characters, ten bytes: long enough.
    assert_eq!(check_length("pässwörd"), Ok(()));
}

#[test]
fn uniqueness_is_exact_match_only() {
    let corpus = common_corpus();
    // One character changed from a corpus entry: no fuzzy matching.
    assert_eq!(check_uniqueness("passwore", &corpus), Ok(()));
    assert_eq!(check_uniqueness("Password", &corpus), Ok(()));
    assert_eq!(check_uniqueness("password ", &corpus), Ok(()));
}

#[test]
fn entropy_rejects_non_ascii_passwords() {
    assert_eq!(
        check_entropy("sùper sécret pässword"),
        Err(PasswordError::NonAsciiPassword)
    );
    let corpus = common_corpus();
    assert_eq!(
        check_password("sùper sécret pässword", &corpus),
        Err(PasswordError::NonAsciiPassword)
    );
}

#[test]
fn entropy_reports_estimator_failure_on_blank_password() {
    assert_eq!(check_entropy(""), Err(PasswordError::InternalError));
}

#[test]
fn outcomes_map_to_verdicts() {
    assert_eq!(
        verdict_of_outcome(EstimatorOutcome::Score(0)),
        Err(PasswordError::TooSimple)
    );
    assert_eq!(
        verdict_of_outcome(EstimatorOutcome::Score(2)),
        Err(PasswordError::TooSimple)
    );
    assert_eq!(verdict_of_outcome(EstimatorOutcome::Score(3)), Ok(()));
    assert_eq!(verdict_of_outcome(EstimatorOutcome::Score(4)), Ok(()));
    assert_eq!(
        verdict_of_outcome(EstimatorOutcome::UnsupportedCharacters),
        Err(PasswordError::NonAsciiPassword)
    );
    assert_eq!(
        verdict_of_outcome(EstimatorOutcome::Failure),
        Err(PasswordError::InternalError)
    );
}

#[test]
fn first_failing_gate_wins() {
    // "qwerty" is both common and simple, but too short first.
    let corpus = common_corpus();
    assert_eq!(check_password("qwerty", &corpus), Err(PasswordError::TooShort));
    // Long enough and common: the uniqueness gate answers before entropy.
    let corpus_with_long = Corpus::from_lines(&vec!["NotTooRandom".to_string()]);
    assert_eq!(
        check_password("NotTooRandom", &corpus_with_long),
        Err(PasswordError::TooCommon)
    );
}

#[test]
fn checks_are_idempotent() {
    let corpus = common_corpus();
    assert_eq!(check_length("short"), check_length("short"));
    assert_eq!(
        check_uniqueness("password", &corpus),
        check_uniqueness("password", &corpus)
    );
    assert_eq!(check_entropy("NotTooRandom"), check_entropy("NotTooRandom"));
    assert_eq!(
        check_password("Th1s iS a Sup3rR4ndom PassW0rd!", &corpus),
        check_password("Th1s iS a Sup3rR4ndom PassW0rd!", &corpus)
    );
}
