//! The handle that owns one native camera instance.
//!
//! Every operation comes as a pair. The function whose name ends in `_call`
//! builds the native call to perform; the function with the operation's own
//! name takes what that call returned and wrote, and gives the operation's
//! result. A native return code of zero is success; any other value is the
//! one failure there is, of which nothing more is known.

use crate::buffer::{Buffer, BufferView};
use crate::c;
use crate::c::{Call, CameraInstance, CameraInterface, Format, ImageFormat};
use crate::encoding::Encoding;
use crate::{spec_to_result, to_result};
use vstd::prelude::*;

verus! {

/// Interface to a camera.
///
/// The handle owns its native instance: it is neither copied nor cloned, and
/// [`Camera::close`] consumes it.
pub struct Camera {
    ptr: CameraInstance,
}

impl View for Camera {
    type V = CameraInstance;

    /// The address of the native instance that the handle owns.
    closed spec fn view(&self) -> CameraInstance {
        self.ptr
    }
}

impl Camera {
    pub open spec fn spec_init_call(interface: Option<CameraInterface>) -> Call {
        match interface {
            Some(cam_interface) => Call::InitCamera2 { cam_interface },
            None => Call::InitCamera,
        }
    }

    /// The call that initializes a camera.
    ///
    /// Optionally, specific interface settings can be given.
    #[verifier::when_used_as_spec(spec_init_call)]
    pub fn init_call(interface: Option<CameraInterface>) -> (call: Call)
        ensures
            call == Self::spec_init_call(interface),
    {
        if let Some(cam_interface) = interface {
            Call::InitCamera2 { cam_interface }
        } else {
            Call::InitCamera
        }
    }

    /// Initialize a camera from what the call of [`Camera::init_call`] gave:
    /// its return code `r` and the instance `ptr` that it wrote.
    ///
    /// On success the handle owns that instance.
    pub fn init(r: i32, ptr: CameraInstance) -> (res: Result<Self, ()>)
        ensures
            match res {
                Ok(camera) => r == 0 && camera@ == ptr,
                Err(_) => r != 0,
            },
    {
        if r == 0 {
            Ok(Self { ptr })
        } else {
            Err(())
        }
    }

    pub open spec fn spec_set_resolution_call(&self, width: i32, height: i32) -> Call {
        Call::SetResolution { camera_instance: self@, width, height }
    }

    /// The call that sets the output resolution.
    #[verifier::when_used_as_spec(spec_set_resolution_call)]
    pub fn set_resolution_call(&self, width: i32, height: i32) -> (call: Call)
        ensures
            call == self.spec_set_resolution_call(width, height),
            self.issues(call),
    {
        Call::SetResolution { camera_instance: self.ptr, width, height }
    }

    pub open spec fn spec_set_resolution(r: i32, width: i32, height: i32) -> Result<
        (i32, i32),
        (),
    > {
        if r == 0 {
            Ok((width, height))
        } else {
            Err(())
        }
    }

    /// Set the output resolution: `r` is the return code of the call, `width`
    /// and `height` are the values that it wrote back, which are the ones
    /// actually applied.
    pub fn set_resolution(&mut self, r: i32, width: i32, height: i32) -> (res: Result<
        (i32, i32),
        (),
    >)
        ensures
            res == Self::spec_set_resolution(r, width, height),
            final(self)@ == old(self)@,
    {
        to_result(r)?;
        Ok((width, height))
    }

    pub open spec fn spec_set_mode_call(&self, mode: i32) -> Call {
        Call::SetMode { camera_instance: self@, mode }
    }

    /// The call that sets the mode of the sensor.
    #[verifier::when_used_as_spec(spec_set_mode_call)]
    pub fn set_mode_call(&self, mode: i32) -> (call: Call)
        ensures
            call == self.spec_set_mode_call(mode),
            self.issues(call),
    {
        Call::SetMode { camera_instance: self.ptr, mode }
    }

    /// Set the mode of the sensor: `r` is the return code of the call.
    pub fn set_mode(&mut self, r: i32) -> (res: Result<(), ()>)
        ensures
            res == spec_to_result(r),
            final(self)@ == old(self)@,
    {
        to_result(r)
    }

    pub open spec fn spec_get_format_call(&self) -> Call {
        Call::GetFormat { camera_instance: self@ }
    }

    /// The call that gets the current output format.
    #[verifier::when_used_as_spec(spec_get_format_call)]
    pub fn get_format_call(&self) -> (call: Call)
        ensures
            call == self.spec_get_format_call(),
            self.issues(call),
    {
        Call::GetFormat { camera_instance: self.ptr }
    }

    pub open spec fn spec_get_format(r: i32, format: Format) -> Result<Format, ()> {
        if r == 0 {
            Ok(format)
        } else {
            Err(())
        }
    }

    /// Get the current output format: `r` is the return code of the call,
    /// `format` what stands in the storage that the call was given to fill.
    ///
    /// The storage is only known to be filled where the call succeeded, and
    /// nothing of it is handed on where it failed.
    pub fn get_format(&mut self, r: i32, format: Format) -> (res: Result<Format, ()>)
        ensures
            res == Self::spec_get_format(r, format),
            final(self)@ == old(self)@,
    {
        to_result(r)?;
        Ok(format)
    }

    pub open spec fn spec_capture_call(
        &self,
        timeout: i32,
        encoding: Encoding,
        quality: i32,
    ) -> Call {
        Call::Capture {
            camera_instance: self@,
            format: ImageFormat { encoding: encoding.code(), quality },
            timeout,
        }
    }

    /// The call that captures a single frame.
    #[verifier::when_used_as_spec(spec_capture_call)]
    pub fn capture_call(&self, timeout: i32, encoding: Encoding, quality: i32) -> (call: Call)
        ensures
            call == self.spec_capture_call(timeout, encoding, quality),
            self.issues(call),
    {
        let format = ImageFormat { encoding: encoding.code(), quality };
        Call::Capture { camera_instance: self.ptr, format, timeout }
    }

    /// Capture a single frame: `buffer` is the address that the call
    /// returned, `raw` the header and `memory` the payload allocation that
    /// it leads to. A null address is a failure: no frame came in time, or
    /// the capture failed. Otherwise the new handle owns the native buffer.
    pub fn capture(&mut self, buffer: usize, raw: c::Buffer, memory: Vec<u8>) -> (res: Result<
        Buffer,
        (),
    >)
        requires
            buffer != 0 ==> (BufferView { pointer: buffer, header: raw, memory: memory@ }).valid(),
        ensures
            match res {
                Ok(frame) => buffer != 0 && frame@ == (BufferView {
                    pointer: buffer,
                    header: raw,
                    memory: memory@,
                }),
                Err(_) => buffer == 0,
            },
            final(self)@ == old(self)@,
    {
        if buffer == 0 {
            return Err(());
        }
        Ok(Buffer::from_raw_pointer(buffer, raw, memory))
    }

    pub open spec fn spec_reset_control_call(&self, ctrl_id: i32) -> Call {
        Call::ResetControl { camera_instance: self@, ctrl_id }
    }

    /// The call that sets a camera control to default value.
    #[verifier::when_used_as_spec(spec_reset_control_call)]
    pub fn reset_control_call(&self, ctrl_id: i32) -> (call: Call)
        ensures
            call == self.spec_reset_control_call(ctrl_id),
            self.issues(call),
    {
        Call::ResetControl { camera_instance: self.ptr, ctrl_id }
    }

    /// Set a camera control to default value: `r` is the return code of the
    /// call.
    pub fn reset_control(&mut self, r: i32) -> (res: Result<(), ()>)
        ensures
            res == spec_to_result(r),
            final(self)@ == old(self)@,
    {
        to_result(r)
    }

    pub open spec fn spec_set_control_call(&self, ctrl_id: i32, value: i32) -> Call {
        Call::SetControl { camera_instance: self@, ctrl_id, value }
    }

    /// The call that sets a camera control to the specified value. The value
    /// goes to the native library as it is, whatever the control's range.
    #[verifier::when_used_as_spec(spec_set_control_call)]
    pub fn set_control_call(&self, ctrl_id: i32, value: i32) -> (call: Call)
        ensures
            call == self.spec_set_control_call(ctrl_id, value),
            self.issues(call),
    {
        Call::SetControl { camera_instance: self.ptr, ctrl_id, value }
    }

    /// Set a camera control to the specified value: `r` is the return code of
    /// the call.
    pub fn set_control(&mut self, r: i32) -> (res: Result<(), ()>)
        ensures
            res == spec_to_result(r),
            final(self)@ == old(self)@,
    {
        to_result(r)
    }

    pub open spec fn spec_get_control_call(&self, ctrl_id: i32) -> Call {
        Call::GetControl { camera_instance: self@, ctrl_id }
    }

    /// The call that reads the current value of a camera control.
    #[verifier::when_used_as_spec(spec_get_control_call)]
    pub fn get_control_call(&self, ctrl_id: i32) -> (call: Call)
        ensures
            call == self.spec_get_control_call(ctrl_id),
            self.issues(call),
    {
        Call::GetControl { camera_instance: self.ptr, ctrl_id }
    }

    pub open spec fn spec_get_control(r: i32, value: i32) -> Result<i32, ()> {
        if r == 0 {
            Ok(value)
        } else {
            Err(())
        }
    }

    /// Read the current value of a camera control: `r` is the return code of
    /// the call, `value` what it wrote.
    pub fn get_control(&mut self, r: i32, value: i32) -> (res: Result<i32, ()>)
        ensures
            res == Self::spec_get_control(r, value),
            final(self)@ == old(self)@,
    {
        to_result(r)?;
        Ok(value)
    }

    pub open spec fn spec_arducam_software_auto_exposure_call(&self, enable: bool) -> Call {
        Call::SoftwareAutoExposure {
            camera_instance: self@,
            enable: if enable {
                1i32
            } else {
                0i32
            },
        }
    }

    /// The call that enables or disables software auto exposure.
    #[verifier::when_used_as_spec(spec_arducam_software_auto_exposure_call)]
    pub fn arducam_software_auto_exposure_call(&self, enable: bool) -> (call: Call)
        ensures
            call == self.spec_arducam_software_auto_exposure_call(enable),
            self.issues(call),
    {
        let enable: i32 = if enable {
            1
        } else {
            0
        };
        Call::SoftwareAutoExposure { camera_instance: self.ptr, enable }
    }

    /// Enable or disable software auto exposure: `r` is the return code of
    /// the call.
    pub fn arducam_software_auto_exposure(&mut self, r: i32) -> (res: Result<(), ()>)
        ensures
            res == spec_to_result(r),
            final(self)@ == old(self)@,
    {
        to_result(r)
    }

    pub open spec fn spec_arducam_software_auto_white_balance_call(&self, enable: bool) -> Call {
        Call::SoftwareAutoWhiteBalance {
            camera_instance: self@,
            enable: if enable {
                1i32
            } else {
                0i32
            },
        }
    }

    /// The call that enables or disables software auto white balance.
    #[verifier::when_used_as_spec(spec_arducam_software_auto_white_balance_call)]
    pub fn arducam_software_auto_white_balance_call(&self, enable: bool) -> (call: Call)
        ensures
            call == self.spec_arducam_software_auto_white_balance_call(enable),
            self.issues(call),
    {
        let enable: i32 = if enable {
            1
        } else {
            0
        };
        Call::SoftwareAutoWhiteBalance { camera_instance: self.ptr, enable }
    }

    /// Enable or disable software auto white balance: `r` is the return code
    /// of the call.
    pub fn arducam_software_auto_white_balance(&mut self, r: i32) -> (res: Result<(), ()>)
        ensures
            res == spec_to_result(r),
            final(self)@ == old(self)@,
    {
        to_result(r)
    }

    /// The address of the camera instance, as used by the C interface.
    pub fn raw_pointer(&self) -> (res: CameraInstance)
        ensures
            res == self@,
    {
        self.ptr
    }

    pub open spec fn spec_close(self) -> Call {
        Call::CloseCamera { camera_instance: self@ }
    }

    /// Gives the handle up for the one native call that closes its instance.
    ///
    /// Should that call fail, nothing is left to retry it with: turn its
    /// return code into a `Result` with [`to_result`] and treat an `Err` as
    /// fatal.
    #[verifier::when_used_as_spec(spec_close)]
    pub fn close(self) -> (call: Call)
        ensures
            call == self.spec_close(),
    {
        Call::CloseCamera { camera_instance: self.ptr }
    }

    /// The calls that the operations of a live handle build: each with the
    /// arguments that some operation gives it, on the handle's own instance.
    pub open spec fn issues(&self, call: Call) -> bool {
        ||| exists|width: i32, height: i32| call == self.set_resolution_call(width, height)
        ||| exists|mode: i32| call == self.set_mode_call(mode)
        ||| call == self.get_format_call()
        ||| exists|timeout: i32, encoding: Encoding, quality: i32|
            call == self.capture_call(timeout, encoding, quality)
        ||| exists|ctrl_id: i32| call == self.reset_control_call(ctrl_id)
        ||| exists|ctrl_id: i32, value: i32| call == self.set_control_call(ctrl_id, value)
        ||| exists|ctrl_id: i32| call == self.get_control_call(ctrl_id)
        ||| exists|enable: bool| call == self.arducam_software_auto_exposure_call(enable)
        ||| exists|enable: bool| call == self.arducam_software_auto_white_balance_call(enable)
    }
}

/// How many of `calls` close the camera instance `instance`.
pub open spec fn closes(calls: Seq<Call>, instance: CameraInstance) -> nat
    decreases calls.len(),
{
    if calls.len() == 0 {
        0
    } else {
        let rest = closes(calls.drop_last(), instance);
        if calls.last() == (Call::CloseCamera { camera_instance: instance }) {
            rest + 1
        } else {
            rest
        }
    }
}

/// A call that an operation of a live handle builds acts on the handle's own
/// instance, and neither closes it nor releases a buffer nor opens another
/// camera.
pub proof fn lemma_operations_keep_the_instance(camera: Camera, call: Call)
    requires
        camera.issues(call),
    ensures
        call.camera_instance() == Some(camera@),
        call !is CloseCamera,
        call !is ReleaseBuffer,
        call !is InitCamera,
        call !is InitCamera2,
{
}

/// Among the calls that the operations of a handle build there is no close,
/// however many they are and whatever the native library answered to them.
pub proof fn lemma_operations_never_close(camera: Camera, issued: Seq<Call>)
    requires
        forall|i: int| 0 <= i < issued.len() ==> camera.issues(#[trigger] issued[i]),
    ensures
        closes(issued, camera@) == 0,
    decreases issued.len(),
{
    if issued.len() > 0 {
        lemma_operations_keep_the_instance(camera, issued.last());
        lemma_operations_never_close(camera, issued.drop_last());
    }
}

/// Over its whole life a handle has its instance closed exactly once, by the
/// last call: the calls `issued` that its operations build hold no close, and
/// giving the handle up yields the one.
pub proof fn lemma_closed_exactly_once(camera: Camera, issued: Seq<Call>)
    requires
        forall|i: int| 0 <= i < issued.len() ==> camera.issues(#[trigger] issued[i]),
    ensures
        closes(issued.push(camera.close()), camera@) == 1,
        issued.push(camera.close()).last() == (Call::CloseCamera { camera_instance: camera@ }),
{
    lemma_operations_never_close(camera, issued);
    assert(issued.push(camera.close()).drop_last() == issued);
}

/// A control reads back as it was set. `set_control` hands the value to the
/// native library as it is, and both calls name the same control of the
/// same instance; so where the native library took the value (`r_set` is
/// zero) and then read `read`, the value it was given, without fault (`r_get`
/// is zero), `get_control` returns that value.
pub proof fn lemma_control_round_trip(
    camera: Camera,
    ctrl_id: i32,
    value: i32,
    r_set: i32,
    r_get: i32,
    read: i32,
)
    requires
        r_set == 0,
        r_get == 0,
        camera.set_control_call(ctrl_id, value) matches Call::SetControl { value: written, .. }
            && read == written,
    ensures
        camera.set_control_call(ctrl_id, value) == (Call::SetControl {
            camera_instance: camera@,
            ctrl_id,
            value,
        }),
        camera.get_control_call(ctrl_id) == (Call::GetControl {
            camera_instance: camera@,
            ctrl_id,
        }),
        spec_to_result(r_set) == Ok::<(), ()>(()),
        Camera::spec_get_control(r_get, read) == Ok::<i32, ()>(value),
{
}

} // verus!
