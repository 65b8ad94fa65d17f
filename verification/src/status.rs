//! The status-code domain of the underlying bus driver.
//!
//! Every driver primitive reports a single integer code: zero means success,
//! any non-zero value is an opaque failure code that this layer surfaces
//! verbatim and never interprets beyond zero/non-zero.

use vstd::prelude::*;

verus! {

/// Status code returned by every primitive of the underlying bus driver.
#[allow(non_camel_case_types)]
pub type esp_err_t = i32;

/// The error type of this layer: a driver status code, propagated verbatim.
pub type IdfError = esp_err_t;

/// The status code of a successful driver call.
pub const ESP_OK: esp_err_t = 0;

/// Status code of a driver call whose arguments were rejected, for example a
/// transfer longer than the bus's maximum single-transfer size.
pub const ESP_ERR_INVALID_ARG: esp_err_t = 258;

/// Status code of a driver call made in a state it rejects, for example
/// initializing a controller that is already initialized, or tearing one down
/// while devices are still attached.
pub const ESP_ERR_INVALID_STATE: esp_err_t = 259;

/// Reading a value as a success/failure `Result`.
///
/// For a driver status code, zero becomes `Ok(())` and any other code becomes
/// `Err` carrying that code unchanged.
pub trait AsResult<T, E>: Sized {
    /// The `Result` that `as_result` returns for this value.
    spec fn spec_result(&self) -> Result<T, E>;

    fn as_result(&self) -> (r: Result<T, E>)
        ensures
            r == self.spec_result(),
    ;
}

impl AsResult<(), esp_err_t> for esp_err_t {
    open spec fn spec_result(&self) -> Result<(), esp_err_t> {
        if *self == 0 {
            Ok(())
        } else {
            Err(*self)
        }
    }

    fn as_result(&self) -> (r: Result<(), esp_err_t>) {
        if *self == 0 {
            Ok(())
        } else {
            Err(*self)
        }
    }
}

} // verus!
