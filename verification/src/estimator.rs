//! The entropy estimator boundary: the outcome vocabulary of the
//! external pattern-matching scorer, the verified mapping from an
//! outcome into the library's verdict vocabulary, and the trusted call
//! into the scorer itself.

use vstd::prelude::*;
use crate::PassablewordResult;
use crate::PasswordError;

verus! {

/// What one consultation of the entropy estimator can yield: a strength
/// score on its 0..=4 ordinal scale, or a report that it could not
/// evaluate the password.
#[derive(Debug, PartialEq, Eq, Clone, Copy)]
pub enum EstimatorOutcome {
    /// The estimator produced a strength score: 0 is weakest, 4 is
    /// strongest.
    Score(u8),
    /// The password uses characters outside the estimator's supported
    /// (ASCII) character set, so it could not be evaluated.
    UnsupportedCharacters,
    /// The estimator failed for some other internal reason.
    Failure,
}

/// The least estimator score an accepted password may have. Scores
/// below it mark passwords the estimator's own model considers
/// guessable within practically feasible attack budgets.
pub const MIN_SCORE: u8 = 3;

/// The verdict of the entropy gate for a given estimator outcome:
/// accepted exactly when the estimator scored the password at
/// [`MIN_SCORE`] or above; each way the estimator can fail has its own
/// rejection reason.
pub open spec fn outcome_verdict(outcome: EstimatorOutcome) -> PassablewordResult {
    match outcome {
        EstimatorOutcome::Score(score) => if score >= MIN_SCORE {
            Ok(())
        } else {
            Err(PasswordError::TooSimple)
        },
        EstimatorOutcome::UnsupportedCharacters => Err(PasswordError::NonAsciiPassword),
        EstimatorOutcome::Failure => Err(PasswordError::InternalError),
    }
}

/// Map an estimator outcome into the library's verdict vocabulary: a
/// score of [`MIN_SCORE`] or more is accepted, a lower score is
/// rejected as `TooSimple`, an unsupported character set as
/// `NonAsciiPassword`, and any other estimator failure as
/// `InternalError`.
pub fn verdict_of_outcome(outcome: EstimatorOutcome) -> (verdict: PassablewordResult)
    ensures
        verdict == outcome_verdict(outcome),
{
    match outcome {
        EstimatorOutcome::Score(score) => if score >= MIN_SCORE {
            Ok(())
        } else {
            Err(PasswordError::TooSimple)
        },
        EstimatorOutcome::UnsupportedCharacters => Err(PasswordError::NonAsciiPassword),
        EstimatorOutcome::Failure => Err(PasswordError::InternalError),
    }
}

/// Relies on `zxcvbn::zxcvbn`, called with no user-supplied hints: a
/// blank password yields its blank-password error, a non-blank password
/// outside the ASCII range its non-ASCII-password error, and every
/// other password an entropy estimate whose `score` field is at
/// most 4.
#[verifier::external_body]
pub(crate) fn estimate(password: &str) -> (outcome: EstimatorOutcome)
    ensures
        outcome is Failure <==> password@.len() == 0,
        outcome is UnsupportedCharacters <==> (password@.len() > 0 && !vstd::utf8::is_ascii_chars(
            password@,
        )),
        outcome is Score <==> (password@.len() > 0 && vstd::utf8::is_ascii_chars(password@)),
        outcome matches EstimatorOutcome::Score(score) ==> score <= 4,
{
    match zxcvbn::zxcvbn(password, &[]) {
        Ok(entropy) => EstimatorOutcome::Score(entropy.score),
        Err(zxcvbn::ZxcvbnError::NonAsciiPassword) => EstimatorOutcome::UnsupportedCharacters,
        Err(zxcvbn::ZxcvbnError::BlankPassword) => EstimatorOutcome::Failure,
    }
}

} // verus!
