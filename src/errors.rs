use vstd::prelude::*;

verus! {

/// Where the detail of a failure comes from.
#[derive(Clone, Copy, Debug, PartialEq, Eq, Structural)]
pub enum ExpectedError {
    /// The operating system keeps an error code for the failed call.
    Win32,
    /// The message says all there is.
    Other,
}

/// A failed step, named by its message, with the operating system's error
/// code where the step was an OS call.
#[derive(Clone, Copy, Debug)]
pub struct Failure {
    pub message: &'static str,
    pub os_code: Option<i32>,
}

/// Fails with `error_message` alone.
pub fn throw_error<T>(error_message: &'static str) -> (r: Result<T, Failure>)
    ensures
        r == Err::<T, Failure>(Failure { message: error_message, os_code: None }),
{
    Err(Failure { message: error_message, os_code: None })
}

/// Turns the outcome of a step into a result: `failed` says whether the step
/// went wrong, and `last_os_code` is the code the system kept for it, which
/// the failure carries when `expected_error` is `Win32`.
pub fn handle_error(
    error_message: &'static str,
    expected_error: ExpectedError,
    failed: bool,
    last_os_code: i32,
) -> (r: Result<(), Failure>)
    ensures
        !failed ==> r == Ok::<(), Failure>(()),
        failed && expected_error == ExpectedError::Win32 ==> r == Err::<(), Failure>(
            Failure { message: error_message, os_code: Some(last_os_code) },
        ),
        failed && expected_error == ExpectedError::Other ==> r == Err::<(), Failure>(
            Failure { message: error_message, os_code: None },
        ),
{
    if !failed {
        Ok(())
    } else {
        match expected_error {
            ExpectedError::Win32 => Err(Failure { message: error_message, os_code: Some(last_os_code) }),
            ExpectedError::Other => throw_error(error_message),
        }
    }
}

} // verus!
