//! The steps of an encoding. A payload is encoded at the version asked for,
//! clamped into 1..=40, and a payload that does not fit that version is
//! encoded once more at the smallest version that holds it.
//!
//! The calls of the encoder are left to the caller. To choose a mask the
//! encoder adds up penalty scores in `u16` and guards none of the sums; built
//! with overflow checks it panics on a payload that takes one of them past
//! 65535, and no bound on version or length rules such payloads out without
//! ruling out most symbols with them. This module says which call comes next
//! and what the outcome is, and is free of panics whatever the encoder does.

use crate::symbol::{EncodeError, Symbol, SymbolView};
use qrcode::types::QrError;
use vstd::prelude::*;

verus! {

/// The encoder's error type.
#[verifier::external_type_specification]
pub struct ExQrError(qrcode::types::QrError);

/// A call of the encoder.
#[derive(Clone, Copy, Debug, PartialEq, Eq, Structural)]
pub enum Attempt {
    /// At exactly this version, which lies in 1..=40.
    AtVersion(i16),
    /// At the smallest version that holds the payload.
    Smallest,
}

/// The library's name for each of the encoder's errors.
pub open spec fn error_kind(e: QrError) -> EncodeError {
    match e {
        QrError::DataTooLong => EncodeError::DataTooLong,
        QrError::InvalidVersion => EncodeError::InvalidVersion,
        QrError::UnsupportedCharacterSet => EncodeError::UnsupportedCharacterSet,
        QrError::InvalidEciDesignator => EncodeError::InvalidEciDesignator,
        QrError::InvalidCharacter => EncodeError::InvalidCharacter,
    }
}

/// What the encoder handed back, with the symbol taken by its view and the
/// error by its name.
pub open spec fn raw_outcome(r: Result<Symbol, QrError>) -> Result<SymbolView, EncodeError> {
    match r {
        Ok(s) => Ok(s@),
        Err(e) => Err(error_kind(e)),
    }
}

/// The outcome of an encoding with the symbol taken by its view.
pub open spec fn outcome(r: Result<Symbol, EncodeError>) -> Result<SymbolView, EncodeError> {
    match r {
        Ok(s) => Ok(s@),
        Err(e) => Err(e),
    }
}

/// The version asked for, brought into 1..=40.
pub open spec fn clamp_version(v: int) -> int {
    if v < 1 {
        1
    } else if v > 40 {
        40
    } else {
        v
    }
}

/// Whether an attempt at a fixed version ended in a way that a second
/// attempt, with the version left to the encoder, may mend: the payload was
/// too long for the version, or the version was refused.
pub open spec fn calls_for_retry(first: Result<SymbolView, EncodeError>) -> bool {
    first == Err::<SymbolView, EncodeError>(EncodeError::DataTooLong) || first == Err::<
        SymbolView,
        EncodeError,
    >(EncodeError::InvalidVersion)
}

/// The call to begin with: at the minimum version, clamped, where one is
/// given; else at the smallest version.
pub open spec fn first_attempt_of(min_version: Option<usize>) -> Attempt {
    match min_version {
        Some(v) => Attempt::AtVersion(clamp_version(v as int) as i16),
        None => Attempt::Smallest,
    }
}

/// The call that follows the call `made` with the outcome `result`, if any:
/// the smallest version, once, after a fixed version that calls for a retry.
pub open spec fn next_attempt_of(made: Attempt, result: Result<SymbolView, EncodeError>) -> Option<
    Attempt,
> {
    if made is AtVersion && calls_for_retry(result) {
        Some(Attempt::Smallest)
    } else {
        None
    }
}

/// The outcome of an encoding with `min_version`, where `at_version` is what
/// the encoder gives at the clamped minimum version and `smallest` what it
/// gives when it picks the version: `at_version`, unless there is no minimum
/// version or `at_version` calls for a retry; else `smallest`.
pub open spec fn encode_outcome(
    min_version: Option<usize>,
    at_version: Result<SymbolView, EncodeError>,
    smallest: Result<SymbolView, EncodeError>,
) -> Result<SymbolView, EncodeError> {
    if min_version is Some && !calls_for_retry(at_version) {
        at_version
    } else {
        smallest
    }
}

/// The library's name for an error of the encoder.
pub fn name_error(e: QrError) -> (kind: EncodeError)
    ensures
        kind == error_kind(e),
{
    match e {
        QrError::DataTooLong => EncodeError::DataTooLong,
        QrError::InvalidVersion => EncodeError::InvalidVersion,
        QrError::UnsupportedCharacterSet => EncodeError::UnsupportedCharacterSet,
        QrError::InvalidEciDesignator => EncodeError::InvalidEciDesignator,
        QrError::InvalidCharacter => EncodeError::InvalidCharacter,
    }
}

/// An outcome of the encoder with its error named.
pub fn name_outcome(raw: Result<Symbol, QrError>) -> (r: Result<Symbol, EncodeError>)
    ensures
        outcome(r) == raw_outcome(raw),
        raw matches Ok(s) ==> r == Ok::<Symbol, EncodeError>(s),
{
    match raw {
        Ok(symbol) => Ok(symbol),
        Err(e) => Err(name_error(e)),
    }
}

/// Whether a first attempt, made at a fixed version, is to be followed by a
/// second one without it.
pub fn needs_retry(first: &Result<Symbol, EncodeError>) -> (retry: bool)
    ensures
        retry == calls_for_retry(outcome(*first)),
{
    match first {
        Ok(_) => false,
        Err(EncodeError::DataTooLong) => true,
        Err(EncodeError::InvalidVersion) => true,
        Err(_) => false,
    }
}

/// The version to ask the encoder for when the caller wants at least `v`.
pub fn usize_to_version(v: usize) -> (version: i16)
    ensures
        version == clamp_version(v as int),
{
    if v < 1 {
        1
    } else if v > 40 {
        40
    } else {
        v as i16
    }
}

/// The call of the encoder to begin with.
pub fn first_attempt(min_version: Option<usize>) -> (attempt: Attempt)
    ensures
        attempt == first_attempt_of(min_version),
        attempt matches Attempt::AtVersion(v) ==> 1 <= v <= 40,
{
    match min_version {
        Some(v) => Attempt::AtVersion(usize_to_version(v)),
        None => Attempt::Smallest,
    }
}

/// The call of the encoder that follows the call `made`, which ended in
/// `result`; `None` where `result` is the outcome of the encoding.
pub fn next_attempt(made: Attempt, result: &Result<Symbol, EncodeError>) -> (next: Option<Attempt>)
    ensures
        next == next_attempt_of(made, outcome(*result)),
{
    match made {
        Attempt::AtVersion(_) => {
            if needs_retry(result) {
                Some(Attempt::Smallest)
            } else {
                None
            }
        },
        Attempt::Smallest => None,
    }
}

/// The steps end after two calls at most, in the outcome that
/// [`encode_outcome`] names: the first call is the one at the minimum
/// version where there is one, a second call follows only that and is left
/// to the encoder's choice of version, and no third call follows.
pub proof fn lemma_attempts_settle(
    min_version: Option<usize>,
    at_version: Result<SymbolView, EncodeError>,
    smallest: Result<SymbolView, EncodeError>,
)
    ensures
        next_attempt_of(Attempt::Smallest, smallest) is None,
        min_version is None ==> first_attempt_of(min_version) == Attempt::Smallest
            && encode_outcome(min_version, at_version, smallest) == smallest,
        min_version matches Some(v) ==> {
            let first = first_attempt_of(min_version);
            &&& first == Attempt::AtVersion(clamp_version(v as int) as i16)
            &&& match next_attempt_of(first, at_version) {
                Some(second) => second == Attempt::Smallest && encode_outcome(
                    min_version,
                    at_version,
                    smallest,
                ) == smallest,
                None => encode_outcome(min_version, at_version, smallest) == at_version,
            }
        },
{
}

/// Version fallback: where the attempt at the minimum version calls for a
/// retry, the outcome is that of an encoding without a minimum version.
pub proof fn lemma_version_fallback(
    min_version: usize,
    at_version: Result<SymbolView, EncodeError>,
    smallest: Result<SymbolView, EncodeError>,
)
    requires
        calls_for_retry(at_version),
    ensures
        encode_outcome(Some(min_version), at_version, smallest) == encode_outcome(
            None,
            at_version,
            smallest,
        ),
        next_attempt_of(first_attempt_of(Some(min_version)), at_version) == Some(
            first_attempt_of(None),
        ),
{
}

/// A minimum version that the payload does not fit brings no error of its
/// own: unless the encoding without a minimum version itself ends in
/// `DataTooLong` or `InvalidVersion`, neither of them comes out.
pub proof fn lemma_fallback_hides_first_error(
    min_version: usize,
    at_version: Result<SymbolView, EncodeError>,
    smallest: Result<SymbolView, EncodeError>,
)
    requires
        calls_for_retry(at_version),
        !calls_for_retry(smallest),
    ensures
        !calls_for_retry(encode_outcome(Some(min_version), at_version, smallest)),
{
}

} // verus!
