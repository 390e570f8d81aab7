//! The ways in which a text fails the bounds on its length.

use vstd::prelude::*;

verus! {

/// Which bound on its length a refused text breaks.
#[derive(Debug, Clone, Copy, PartialEq, Eq, Structural)]
pub enum ValidationError {
    /// The text has fewer characters than the least number allowed.
    TooShort,
    /// The text has more characters than the greatest number allowed.
    TooLong,
}

/// What becomes of a text that has to hold between `min` and `max`
/// characters: it is kept, or refused for the bound it breaks.
pub open spec fn validated(text: Seq<char>, min: int, max: int) -> Result<
    Seq<char>,
    ValidationError,
> {
    if text.len() < min {
        Err(ValidationError::TooShort)
    } else if text.len() > max {
        Err(ValidationError::TooLong)
    } else {
        Ok(text)
    }
}

} // verus!
