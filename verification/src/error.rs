//! The ways in which generating an identifier can fail.

use vstd::prelude::*;
use vstd::std_specs::convert::FromSpecImpl;
use vstd::string::{to_string_from_display_ensures, StringExecFns};
use crate::decimal::{decimal, to_decimal};

verus! {

/// The error that `std::time::SystemTime::duration_since` returns when the
/// clock stands before the reference time.
#[verifier::external_type_specification]
#[verifier::external_body]
pub struct ExSystemTimeError(std::time::SystemTimeError);

/// The error of the operating system's random source, from `rand_core`.
#[verifier::external_type_specification]
#[verifier::external_body]
pub struct ExOsError(rand::rand_core::OsError);

/// Why no identifier was produced.
#[derive(Debug)]
pub enum CuidError {
    /// The requested length, then the smallest and the largest accepted.
    InvalidLength(usize, usize, usize),
    /// The system clock reported a time before the Unix epoch.
    SystemTimeError(std::time::SystemTimeError),
    /// The operating system's random source failed.
    RandChaChaError(rand::rand_core::OsError),
}

/// The text that describes a refused length.
pub open spec fn invalid_length_text(requested: usize, min: usize, max: usize) -> Seq<char> {
    "Invalid CUID length: "@ + decimal(requested as nat) + ", expected between "@ + decimal(
        min as nat,
    ) + " and "@ + decimal(max as nat)
}

impl CuidError {
    /// The text that describes this error. For a failure of the clock or of
    /// the random source, the text ends with the carried error's own text.
    pub fn message(&self) -> (text: String)
        ensures
            match *self {
                CuidError::InvalidLength(requested, min, max) => text@ == invalid_length_text(
                    requested,
                    min,
                    max,
                ),
                CuidError::SystemTimeError(err) => exists|detail: String|
                    {
                        &&& #[trigger] to_string_from_display_ensures::<
                            std::time::SystemTimeError,
                        >(&err, detail)
                        &&& text@ == "System time error: "@ + detail@
                    },
                CuidError::RandChaChaError(err) => exists|detail: String|
                    {
                        &&& #[trigger] to_string_from_display_ensures::<rand::rand_core::OsError>(
                            &err,
                            detail,
                        )
                        &&& text@ == "ChaCha RNG error: "@ + detail@
                    },
            },
    {
        match self {
            CuidError::InvalidLength(requested, min, max) => {
                let mut text = String::from_str("Invalid CUID length: ");
                text.append(to_decimal(*requested as u128).as_str());
                text.append(", expected between ");
                text.append(to_decimal(*min as u128).as_str());
                text.append(" and ");
                text.append(to_decimal(*max as u128).as_str());
                text
            },
            CuidError::SystemTimeError(err) => {
                let mut text = String::from_str("System time error: ");
                let detail = err.to_string();
                text.append(detail.as_str());
                assert(text@ == "System time error: "@ + detail@);
                text
            },
            CuidError::RandChaChaError(err) => {
                let mut text = String::from_str("ChaCha RNG error: ");
                let detail = err.to_string();
                text.append(detail.as_str());
                assert(text@ == "ChaCha RNG error: "@ + detail@);
                text
            },
        }
    }
}

impl From<std::time::SystemTimeError> for CuidError {
    fn from(err: std::time::SystemTimeError) -> (error: CuidError) {
        CuidError::SystemTimeError(err)
    }
}

impl FromSpecImpl<std::time::SystemTimeError> for CuidError {
    open spec fn obeys_from_spec() -> bool {
        true
    }

    open spec fn from_spec(err: std::time::SystemTimeError) -> CuidError {
        CuidError::SystemTimeError(err)
    }
}

impl From<rand::rand_core::OsError> for CuidError {
    fn from(err: rand::rand_core::OsError) -> (error: CuidError) {
        CuidError::RandChaChaError(err)
    }
}

impl FromSpecImpl<rand::rand_core::OsError> for CuidError {
    open spec fn obeys_from_spec() -> bool {
        true
    }

    open spec fn from_spec(err: rand::rand_core::OsError) -> CuidError {
        CuidError::RandChaChaError(err)
    }
}

} // verus!
