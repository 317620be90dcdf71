//! Plain value types of the window server's C interface, and the translation
//! of its return codes into `Result`.

use vstd::prelude::*;

verus! {

/// A return code from the window server's error domain; `0` denotes success,
/// every other value is passed to the caller unchanged.
pub type CGError = i32;

/// The C interface's boolean: `0` is false, every other value is true.
#[allow(non_camel_case_types)]
pub type boolean_t = u32;

/// Translates a C-style return code: zero becomes `Ok(())`, any non-zero code
/// is surfaced verbatim as the error value.
pub fn result_from_code(code: CGError) -> (r: Result<(), CGError>)
    ensures
        r is Ok <==> code == 0,
        r matches Err(e) ==> e == code,
{
    if code == 0 {
        Ok(())
    } else {
        Err(code)
    }
}

/// Translates the C interface's boolean into `bool`: every non-zero value is
/// true.
pub fn bool_from_native(value: boolean_t) -> (r: bool)
    ensures
        r == (value != 0),
{
    value != 0
}

} // verus!
