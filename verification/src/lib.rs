//! `passablewords` is a password validation library: it checks that a
//! candidate password is long enough, not among a corpus of known-common
//! passwords, and not trivially guessable by pattern-based entropy
//! estimation.
//!
//! The three checks are independent and composed by [`check_password`],
//! which runs them in a fixed order (length, uniqueness, entropy) and
//! returns the first failure.
//!
//! The corpus of common passwords is an explicit handle, [`Corpus`],
//! built once from the corpus lines (one password per line) and shared
//! read-only thereafter; loading those lines from storage is the
//! caller's concern.

mod corpus;
mod estimator;

pub use corpus::Corpus;
pub use corpus::first_newline;
pub use corpus::line_set;
pub use corpus::spec_lines;
pub use corpus::split_lines;
pub use corpus::strip_cr;
pub use estimator::EstimatorOutcome;
pub use estimator::MIN_SCORE;
pub use estimator::outcome_verdict;
pub use estimator::verdict_of_outcome;

use vstd::prelude::*;
use vstd::string::StrSliceExecFns;
use vstd::utf8::is_ascii_chars;

verus! {

/// The result of one password check: `Ok(())` when the password is
/// accepted, otherwise one [`PasswordError`] naming the reason it was
/// rejected.
pub type PassablewordResult = Result<(), PasswordError>;

/// The reasons a password can be rejected. Exactly one reason is ever
/// reported per check call; reasons are never combined.
#[derive(Debug, PartialEq, Eq, Clone, Copy)]
pub enum PasswordError {
    /// The password is shorter than 8 characters.
    TooShort,
    /// The password appears verbatim in the common-password corpus.
    TooCommon,
    /// The entropy of the password is too low: it could be easily
    /// guessed or cracked, and a more random password should be used.
    TooSimple,
    /// The password uses characters outside the entropy estimator's
    /// supported character set.
    NonAsciiPassword,
    /// The entropy estimator failed unexpectedly.
    InternalError,
}

/// The minimum accepted password length, in characters.
pub const MIN_LENGTH: usize = 8;

/// The verdict that rejects a password for the given reason.
pub open spec fn rejected(reason: PasswordError) -> PassablewordResult {
    Err(reason)
}

/// The verdict of the length gate: accepted exactly when the password
/// has at least [`MIN_LENGTH`] characters.
pub open spec fn length_verdict(password: Seq<char>) -> PassablewordResult {
    if password.len() >= MIN_LENGTH {
        Ok(())
    } else {
        Err(PasswordError::TooShort)
    }
}

/// Check that a password is at least 8 characters long (character
/// count, not byte count). While this shouldn't be used as the only
/// password check, it's a good baseline to start from.
pub fn check_length(password: &str) -> (r: PassablewordResult)
    ensures
        r == length_verdict(password@),
{
    if password.unicode_len() >= MIN_LENGTH {
        Ok(())
    } else {
        Err(PasswordError::TooShort)
    }
}

/// The verdict of the uniqueness gate: accepted exactly when the
/// password is not in the corpus.
pub open spec fn uniqueness_verdict(
    password: Seq<char>,
    corpus: Set<Seq<char>>,
) -> PassablewordResult {
    if corpus.contains(password) {
        Err(PasswordError::TooCommon)
    } else {
        Ok(())
    }
}

/// Check that a password is not among the known-common passwords of the
/// given corpus. Membership is by exact character equality only: a
/// password differing by even one character from a corpus entry is
/// treated as unique.
pub fn check_uniqueness(password: &str, corpus: &Corpus) -> (r: PassablewordResult)
    ensures
        r == uniqueness_verdict(password@, corpus@),
{
    if corpus.contains(password) {
        Err(PasswordError::TooCommon)
    } else {
        Ok(())
    }
}

/// Check that a password is random enough that guessing or cracking it
/// would take a lot of effort. The estimate comes from the zxcvbn
/// library; a password is accepted exactly when its score reaches
/// [`MIN_SCORE`]. A password with characters outside the estimator's
/// supported (ASCII) character set is rejected as `NonAsciiPassword`,
/// and any other estimator failure as `InternalError` — never as
/// `TooSimple`, so a caller can tell "validation could not be
/// completed" from "password is weak".
pub fn check_entropy(password: &str) -> (r: PassablewordResult)
    ensures
        r == rejected(PasswordError::NonAsciiPassword) <==> !is_ascii_chars(password@),
        is_ascii_chars(password@) && password@.len() == 0 ==> r == rejected(
            PasswordError::InternalError,
        ),
        is_ascii_chars(password@) && password@.len() > 0 ==> (r is Ok || r == rejected(
            PasswordError::TooSimple,
        )),
        exists|outcome: EstimatorOutcome| r == #[trigger] outcome_verdict(outcome),
{
    let outcome = estimator::estimate(password);
    let r = verdict_of_outcome(outcome);
    proof {
        assert(r == outcome_verdict(outcome));
    }
    r
}

/// The composed verdict for a password, given the corpus and the
/// outcome the estimator would report for it: the verdict of the first
/// failing gate, in the order length, uniqueness, entropy; acceptance
/// when all three gates accept.
pub open spec fn password_verdict(
    password: Seq<char>,
    corpus: Set<Seq<char>>,
    outcome: EstimatorOutcome,
) -> PassablewordResult {
    if length_verdict(password) is Err {
        length_verdict(password)
    } else if uniqueness_verdict(password, corpus) is Err {
        uniqueness_verdict(password, corpus)
    } else {
        outcome_verdict(outcome)
    }
}

/// Check a password's length, uniqueness, and entropy in a single call,
/// in that order, stopping at the first failing gate and returning its
/// reason; the password is accepted when all three gates accept it.
pub fn check_password(password: &str, corpus: &Corpus) -> (r: PassablewordResult)
    ensures
        length_verdict(password@) is Err ==> r == length_verdict(password@),
        length_verdict(password@) is Ok && uniqueness_verdict(password@, corpus@) is Err ==> r
            == uniqueness_verdict(password@, corpus@),
        length_verdict(password@) is Ok && uniqueness_verdict(password@, corpus@) is Ok
            && is_ascii_chars(password@) ==> (r is Ok || r == rejected(PasswordError::TooSimple)),
        length_verdict(password@) is Ok && uniqueness_verdict(password@, corpus@) is Ok
            && !is_ascii_chars(password@) ==> r == rejected(PasswordError::NonAsciiPassword),
        r is Ok ==> length_verdict(password@) is Ok && uniqueness_verdict(password@, corpus@) is Ok,
        exists|outcome: EstimatorOutcome| r == #[trigger] password_verdict(
            password@,
            corpus@,
            outcome,
        ),
{
    let length = check_length(password);
    if length.is_err() {
        proof {
            assert(length == password_verdict(password@, corpus@, EstimatorOutcome::Failure));
        }
        return length;
    }
    let uniqueness = check_uniqueness(password, corpus);
    if uniqueness.is_err() {
        proof {
            assert(uniqueness == password_verdict(password@, corpus@, EstimatorOutcome::Failure));
        }
        return uniqueness;
    }
    let entropy = check_entropy(password);
    proof {
        let outcome = choose|outcome: EstimatorOutcome| entropy == #[trigger] outcome_verdict(
            outcome,
        );
        assert(entropy == password_verdict(password@, corpus@, outcome));
    }
    entropy
}

/// Law (first failure wins): for any estimator outcome, the composed
/// verdict is the verdict of the first gate to fail — length, then
/// uniqueness, then entropy — and is acceptance exactly when all three
/// gates accept.
pub proof fn lemma_first_failure_wins(
    password: Seq<char>,
    corpus: Set<Seq<char>>,
    outcome: EstimatorOutcome,
)
    ensures
        length_verdict(password) is Err ==> password_verdict(password, corpus, outcome)
            == length_verdict(password),
        length_verdict(password) is Ok && uniqueness_verdict(password, corpus) is Err
            ==> password_verdict(password, corpus, outcome) == uniqueness_verdict(password, corpus),
        length_verdict(password) is Ok && uniqueness_verdict(password, corpus) is Ok
            ==> password_verdict(password, corpus, outcome) == outcome_verdict(outcome),
        password_verdict(password, corpus, outcome) is Ok <==> (length_verdict(password) is Ok
            && uniqueness_verdict(password, corpus) is Ok && outcome_verdict(outcome) is Ok),
{
}

/// Law (length boundary): a password of fewer than [`MIN_LENGTH`]
/// characters is rejected as `TooShort`, and one of at least
/// [`MIN_LENGTH`] characters passes the length gate; in particular a
/// password of exactly [`MIN_LENGTH`] characters passes.
pub proof fn lemma_length_boundary(password: Seq<char>)
    ensures
        length_verdict(password) == rejected(PasswordError::TooShort) <==> password.len()
            < MIN_LENGTH,
        length_verdict(password) is Ok <==> password.len() >= MIN_LENGTH,
{
}

/// Law (exact match only): a password is rejected as `TooCommon`
/// exactly when it appears verbatim in the corpus; any other password —
/// however similar to a corpus entry — passes the uniqueness gate.
pub proof fn lemma_uniqueness_exact(password: Seq<char>, corpus: Set<Seq<char>>)
    ensures
        uniqueness_verdict(password, corpus) == rejected(PasswordError::TooCommon)
            <==> corpus.contains(password),
        uniqueness_verdict(password, corpus) is Ok <==> !corpus.contains(password),
{
}

/// Law (entropy threshold): a scored password passes the entropy gate
/// exactly when its score reaches [`MIN_SCORE`], a lower score means
/// `TooSimple`, and the unsupported-character-set outcome alone yields
/// `NonAsciiPassword`.
pub proof fn lemma_entropy_threshold(outcome: EstimatorOutcome)
    ensures
        outcome matches EstimatorOutcome::Score(score) ==> (outcome_verdict(outcome) is Ok <==> score
            >= MIN_SCORE),
        outcome matches EstimatorOutcome::Score(score) && score < MIN_SCORE ==> outcome_verdict(
            outcome,
        ) == rejected(PasswordError::TooSimple),
        outcome_verdict(outcome) == rejected(PasswordError::NonAsciiPassword) <==> outcome is UnsupportedCharacters,
{
}

/// Law (idempotence): every verdict is a pure function of the password,
/// the corpus, and the estimator outcome, so checking the same password
/// twice against the same corpus and estimator outcome yields the same
/// verdict; no hidden mutable state affects it.
pub proof fn lemma_verdicts_functional(
    password1: Seq<char>,
    password2: Seq<char>,
    corpus1: Set<Seq<char>>,
    corpus2: Set<Seq<char>>,
    outcome1: EstimatorOutcome,
    outcome2: EstimatorOutcome,
)
    requires
        password1 == password2,
        corpus1 == corpus2,
        outcome1 == outcome2,
    ensures
        length_verdict(password1) == length_verdict(password2),
        uniqueness_verdict(password1, corpus1) == uniqueness_verdict(password2, corpus2),
        outcome_verdict(outcome1) == outcome_verdict(outcome2),
        password_verdict(password1, corpus1, outcome1) == password_verdict(
            password2,
            corpus2,
            outcome2,
        ),
{
}

} // verus!
