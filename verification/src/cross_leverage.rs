//! The leverage of a cross-margin position: a whole number within fixed
//! bounds.
//!
//! Callers give it as a whole number, or as a double-precision number, which
//! then has to be whole. Whether it is whole is judged first, the bounds
//! after.

use crate::double_bits::{nearest_u64, to_whole_number, whole_value};
use crate::error::CrossLeverageValidationError;
use vstd::prelude::*;
use vstd::std_specs::convert::TryFromSpecImpl;

verus! {

/// A validated cross leverage.
///
/// It can only be made from a whole number of `MIN` to `MAX`, so every value
/// of this type is within those bounds.
#[derive(Debug, Clone, Copy, Hash)]
pub struct CrossLeverage {
    value: u64,
}

impl View for CrossLeverage {
    type V = u64;

    closed spec fn view(&self) -> u64 {
        self.value
    }
}

impl CrossLeverage {
    /// The lowest leverage.
    pub const MIN: u64 = 1;

    /// The highest leverage.
    pub const MAX: u64 = 100;

    /// What becomes of a whole number that is offered as a leverage: the
    /// leverage's value, which is the number itself, or the reason for
    /// refusing it.
    pub open spec fn validate(value: u64) -> Result<u64, CrossLeverageValidationError> {
        if value < Self::MIN {
            Err(CrossLeverageValidationError::TooLow { value })
        } else if value > Self::MAX {
            Err(CrossLeverageValidationError::TooHigh { value })
        } else {
            Ok(value)
        }
    }

    /// What becomes of a double-precision number, given by its bit pattern,
    /// that is offered as a leverage. A number that is not whole is refused
    /// as such. A whole number is judged by the bounds; one that no `u64`
    /// holds is named in the error as the nearest that one does hold.
    pub open spec fn validate_number(bits: u64) -> Result<u64, CrossLeverageValidationError> {
        match whole_value(bits) {
            None => Err(CrossLeverageValidationError::NotAnInteger { value_bits: bits }),
            Some(value) => Self::validate(nearest_u64(value)),
        }
    }

    /// The invariant of the type: the value is within the bounds.
    pub open spec fn well_formed(&self) -> bool {
        Self::MIN <= self@ <= Self::MAX
    }

    #[verifier::type_invariant]
    spec fn bounded(&self) -> bool {
        self.well_formed()
    }

    /// The leverage as a number.
    pub fn as_u64(&self) -> (res: u64)
        ensures
            res == self@,
            self.well_formed(),
    {
        proof {
            use_type_invariant(self);
        }
        self.value
    }

    /// Makes a leverage from a double-precision number, given by its bit
    /// pattern. The number must be whole and within the bounds.
    pub fn from_number_bits(bits: u64) -> (res: Result<Self, CrossLeverageValidationError>)
        ensures
            match res {
                Ok(leverage) => Self::validate_number(bits) == Ok::<
                    u64,
                    CrossLeverageValidationError,
                >(leverage@) && leverage.well_formed(),
                Err(error) => Self::validate_number(bits) == Err::<
                    u64,
                    CrossLeverageValidationError,
                >(error),
            },
    {
        match to_whole_number(bits) {
            None => Err(CrossLeverageValidationError::NotAnInteger { value_bits: bits }),
            Some(value) => CrossLeverage::try_from(value),
        }
    }
}

impl TryFrom<u64> for CrossLeverage {
    type Error = CrossLeverageValidationError;

    /// Accepts a whole number of `MIN` to `MAX` and refuses any other, with
    /// the number.
    fn try_from(value: u64) -> (res: Result<Self, Self::Error>)
        ensures
            match res {
                Ok(leverage) => Self::validate(value) == Ok::<u64, CrossLeverageValidationError>(
                    leverage@,
                ) && leverage.well_formed(),
                Err(error) => Self::validate(value) == Err::<u64, CrossLeverageValidationError>(
                    error,
                ),
            },
    {
        if value < Self::MIN {
            return Err(CrossLeverageValidationError::TooLow { value });
        }
        if value > Self::MAX {
            return Err(CrossLeverageValidationError::TooHigh { value });
        }
        Ok(CrossLeverage { value })
    }
}

impl TryFromSpecImpl<u64> for CrossLeverage {
    open spec fn obeys_try_from_spec() -> bool {
        true
    }

    closed spec fn try_from_spec(value: u64) -> Result<Self, Self::Error> {
        match Self::validate(value) {
            Ok(_) => Ok(CrossLeverage { value }),
            Err(error) => Err(error),
        }
    }
}

/// A whole number is accepted as a leverage exactly when it lies between
/// `MIN` and `MAX`, and the leverage made from it has that value.
pub proof fn whole_number_in_bounds_is_accepted(value: u64)
    ensures
        CrossLeverage::validate(value) is Ok <==> CrossLeverage::MIN <= value <= CrossLeverage::MAX,
        CrossLeverage::validate(value) matches Ok(accepted) ==> accepted == value,
{
}

/// A double-precision number is accepted as a leverage exactly when it is a
/// whole number between `MIN` and `MAX`, and the leverage made from it has
/// that value. A number that is not whole is refused for that, whatever its
/// size.
pub proof fn number_is_accepted_iff_whole_and_in_bounds(bits: u64)
    ensures
        CrossLeverage::validate_number(bits) is Ok <==> (whole_value(bits) matches Some(value)
            && CrossLeverage::MIN <= value <= CrossLeverage::MAX),
        CrossLeverage::validate_number(bits) matches Ok(accepted) ==> whole_value(bits) == Some(
            accepted as int,
        ),
        whole_value(bits) is None ==> CrossLeverage::validate_number(bits) == Err::<
            u64,
            CrossLeverageValidationError,
        >(CrossLeverageValidationError::NotAnInteger { value_bits: bits }),
{
}

} // verus!
