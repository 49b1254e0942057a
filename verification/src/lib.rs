//! Ownership-safe handles over the ArduCAM MIPI camera library, as a verified core.
//!
//! The native library is reached through a foreign function interface that
//! this crate does not touch. Each operation of a handle is therefore split in
//! two: one function builds the native [`c::Call`] to perform, and one turns
//! what the native library handed back into the operation's result.

use vstd::prelude::*;

pub mod buffer;
pub mod c;
pub mod camera;
pub mod encoding;

pub use buffer::Buffer;
pub use c::{CameraInterface, Format, Fract};
pub use camera::Camera;
pub use encoding::Encoding;

verus! {

/// What a native return code means: zero is success, anything else the one
/// undifferentiated failure.
pub open spec fn spec_to_result(r: i32) -> Result<(), ()> {
    if r == 0 {
        Ok(())
    } else {
        Err(())
    }
}

/// Turns a native return code into a `Result`.
pub fn to_result(r: i32) -> (res: Result<(), ()>)
    ensures
        res == spec_to_result(r),
        res is Ok <==> r == 0,
{
    if r == 0 {
        Ok(())
    } else {
        Err(())
    }
}

} // verus!
