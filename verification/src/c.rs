//! The interface of the native `arducam_mipicamera` library, as plain values.
//!
//! The constants are exchanged with native code and are fixed bit for bit.
//! The structs hold the fields of the native layouts in their order, with
//! a pointer kept as the address it holds. The entry points that the handles
//! of this crate use are the variants of [`Call`].

use vstd::prelude::*;

verus! {

/// The code that packs four one-byte characters into 32 bits, the first
/// character in the lowest byte.
pub open spec fn fourcc(a: char, b: char, c: char, d: char) -> u32
    recommends
        (a as u32) < 256,
        (b as u32) < 256,
        (c as u32) < 256,
        (d as u32) < 256,
{
    (a as u32) | (b as u32) << 8 | (c as u32) << 16 | (d as u32) << 24
}

pub const IMAGE_ENCODING_I420: u32 = 0x3032_3449;

pub const IMAGE_ENCODING_JPEG: u32 = 0x4745_504A;

pub const IMAGE_ENCODING_RAW_BAYER: u32 = 0x2057_4152;

pub const IMAGE_ENCODING_BMP: u32 = 0x2050_4D42;

pub const IMAGE_ENCODING_PNG: u32 = 0x2747_4E50;

pub const OUTPUT_FLAG_KEEP_BUFFER_REQUIREMENTS: u32 = 8;

pub const OUTPUT_FLAG_BUFFER_ALLOCATION_USE_MMAL_CORE: u32 = 16;

pub const VIDEO_LEVEL_H264_4: u32 = 28;

pub const VIDEO_LEVEL_H264_41: u32 = 29;

pub const VIDEO_LEVEL_H264_42: u32 = 30;

pub const VIDEO_PROFILE_H264_BASELINE: u32 = 25;

pub const VIDEO_PROFILE_H264_MAIN: u32 = 26;

pub const VIDEO_PROFILE_H264_HIGH: u32 = 28;

pub const VIDEO_INTRA_REFRESH_CYCLIC: u32 = 0;

pub const VIDEO_INTRA_REFRESH_ADAPTIVE: u32 = 1;

pub const VIDEO_INTRA_REFRESH_BOTH: u32 = 2;

pub const VIDEO_INTRA_REFRESH_CYCLIC_MROWS: u32 = 2130706433;

/// Special value signalling that time is not known.
///
/// Timestamps in MMAL are defined as signed 64 bits integer values
/// representing microseconds. However a pre-defined special value is used to
/// signal that a timestamp is not known.
pub const TIME_UNKNOWN: i64 = i64::MIN;

/// Signals that the current payload is the end of the stream of data.
pub const MMAL_BUFFER_HEADER_FLAG_EOS: u32 = 1;

/// Signals that the start of the current payload starts a frame.
pub const MMAL_BUFFER_HEADER_FLAG_FRAME_START: u32 = 2;

/// Signals that the end of the current payload ends a frame.
pub const MMAL_BUFFER_HEADER_FLAG_FRAME_END: u32 = 4;

/// Signals that the current payload contains only complete frames (1 or more).
pub const MMAL_BUFFER_HEADER_FLAG_FRAME: u32 = 6;

/// Signals that the current payload is a keyframe (i.e. self decodable).
pub const MMAL_BUFFER_HEADER_FLAG_KEYFRAME: u32 = 8;

/// Signals a discontinuity in the stream of data (e.g. after a seek).
///
/// Can be used for instance by a decoder to reset its state.
pub const MMAL_BUFFER_HEADER_FLAG_DISCONTINUITY: u32 = 16;

/// Signals a buffer containing some kind of config data for the component
/// (e.g. codec config data).
pub const MMAL_BUFFER_HEADER_FLAG_CONFIG: u32 = 32;

/// Signals an encrypted payload.
pub const MMAL_BUFFER_HEADER_FLAG_ENCRYPTED: u32 = 64;

/// Signals a buffer containing side information.
pub const MMAL_BUFFER_HEADER_FLAG_CODECSIDEINFO: u32 = 128;

/// Signals a buffer which is the snapshot/postview image from a stills capture.
pub const MMAL_BUFFER_HEADER_FLAGS_SNAPSHOT: u32 = 256;

/// Signals a buffer which contains data known to be corrupted.
pub const MMAL_BUFFER_HEADER_FLAG_CORRUPTED: u32 = 512;

/// Signals that a buffer failed to be transmitted.
pub const MMAL_BUFFER_HEADER_FLAG_TRANSMISSION_FAILED: u32 = 1024;

/// Signals the output buffer won't be used, just update reference frames.
pub const MMAL_BUFFER_HEADER_FLAG_DECODEONLY: u32 = 2048;

/// Signals that the end of the current payload ends a NAL.
pub const MMAL_BUFFER_HEADER_FLAG_NAL_END: u32 = 4096;

pub const V4L2_CTRL_CLASS_USER: u32 = 9961472;

pub const V4L2_CID_BASE: u32 = 9963776;

pub const V4L2_CID_ARDUCAM_BASE: u32 = 9967872;

pub const V4L2_CID_ARDUCAM_EXT_TRI: u32 = 9967873;

/// The address of a native camera instance; zero is the null pointer.
pub type CameraInstance = usize;

#[derive(Debug, Copy, Clone, PartialEq, Eq)]
pub struct ImageFormat {
    pub encoding: u32,
    pub quality: i32,
}

/// Describes a rectangle
#[derive(Debug, Copy, Clone, PartialEq, Eq)]
pub struct Rectangle {
    /// x coordinate (from left)
    pub x: i32,
    /// y coordinate (from top)
    pub y: i32,
    pub width: i32,
    pub height: i32,
}

#[derive(Debug, Copy, Clone, PartialEq, Eq)]
pub struct PreviewParams {
    pub fullscreen: i32,
    pub opacity: i32,
    pub window: Rectangle,
}

#[derive(Debug, Copy, Clone, PartialEq, Eq)]
pub struct VideoEncoderState {
    /// Requested codec video encoding (MJPEG or H264)
    pub encoding: u32,
    /// Requested bitrate
    pub bitrate: i32,
    /// Intra-refresh period (key frame rate)
    pub intraperiod: i32,
    /// Quantisation parameter - quality. Set bitrate 0 and set this for variable bitrate
    pub quantisation_parameter: i32,
    /// Insert inline headers to stream (SPS, PPS)
    pub b_inline_headers: i32,
    /// Not working
    pub immutable_input: i32,
    /// H264 profile to use for encoding
    pub profile: i32,
    /// H264 level to use for encoding
    pub level: i32,
    /// Encoder outputs inline Motion Vectors
    pub inline_motion_vectors: i32,
    /// What intra refresh type to use. -1 to not set.
    pub intra_refresh_type: i32,
    /// 0 or 1
    pub add_sps_timing: i32,
    /// Horizontal slices per frame. Default 1 (off)
    pub slices: i32,
}

/// The header of a native buffer.
#[derive(Debug, Copy, Clone, PartialEq, Eq)]
pub struct Buffer {
    /// Address of the native library's private data
    pub priv_: usize,
    /// Address of the payload buffer
    pub data: usize,
    /// Allocated size in bytes of payload buffer
    pub alloc_size: u32,
    /// Number of bytes currently used in the payload buffer (starting from offset)
    pub length: u32,
    /// Flags describing properties of a buffer header (see `bufferheaderflags`)
    pub flags: u32,
    /// Presentation timestamp in microseconds.
    ///
    /// `TIME_UNKNOWN` is used when the pts is unknown.
    pub pts: i64,
    /// Field reserved for use by the client
    pub userdata: usize,
}

#[derive(Debug, Copy, Clone, PartialEq, Eq)]
pub struct Fract {
    pub numerator: u32,
    pub denominator: u32,
}

#[derive(Debug, Copy, Clone, PartialEq, Eq)]
pub struct Format {
    pub mode: i32,
    pub width: i32,
    pub height: i32,
    pub pixelformat: u32,
    pub frameintervals: Fract,
    /// Address of a string that the native library owns; it is valid only
    /// as long as the camera instance lives.
    pub description: usize,
    pub reserved: [u32; 4],
}

#[derive(Debug, Copy, Clone, PartialEq, Eq)]
pub struct CameraCtrl {
    pub id: i32,
    /// Address of a string that the native library owns; it is valid only
    /// as long as the camera instance lives.
    pub desc: usize,
    pub max_value: i32,
    pub min_value: i32,
    pub default_value: i32,
}

#[derive(Debug, Copy, Clone, PartialEq, Eq)]
pub struct CameraInterface {
    pub i2c_bus: i32,
    /// mipi interface number
    pub camera_num: i32,
    /// enable `sda_pins[camera_num]`, disable `sda_pins[camera_num ? 0 : 1]`
    pub sda_pins: [i32; 2],
    /// enable `scl_pins[camera_num]`, disable `scl_pins[camera_num ? 0 : 1]`
    pub scl_pins: [i32; 2],
    pub shutdown_pins: [i32; 2],
    pub led_pins: [i32; 2],
}

/// One call of an entry point of the native library, with its arguments.
///
/// A handle builds the call; whoever holds the native library performs it and
/// hands back what the call returned and wrote.
#[derive(Debug, Copy, Clone, PartialEq, Eq)]
pub enum Call {
    /// Initialize camera.
    InitCamera,
    /// Initialize camera on a given interface.
    ///
    /// Some boards have multiple camera interfaces.
    InitCamera2 { cam_interface: CameraInterface },
    /// Set output resolution. The native library writes the actual width
    /// and height back.
    SetResolution { camera_instance: CameraInstance, width: i32, height: i32 },
    /// Set sensor mode.
    SetMode { camera_instance: CameraInstance, mode: i32 },
    /// Get the current format.
    GetFormat { camera_instance: CameraInstance },
    /// Get single frame data. The native library returns a null pointer if no
    /// data is obtained in time.
    Capture { camera_instance: CameraInstance, format: ImageFormat, timeout: i32 },
    /// Release the memory occupied by the buffer.
    ReleaseBuffer { buffer: usize },
    /// Release all resources and turn off the camera.
    CloseCamera { camera_instance: CameraInstance },
    /// Set camera control to default value.
    ResetControl { camera_instance: CameraInstance, ctrl_id: i32 },
    /// Set camera control.
    SetControl { camera_instance: CameraInstance, ctrl_id: i32, value: i32 },
    /// Get camera control value.
    GetControl { camera_instance: CameraInstance, ctrl_id: i32 },
    /// Enable/Disable software auto exposure: 0 disable, !0 enable.
    ///
    /// Setting the resolution turns this feature off.
    SoftwareAutoExposure { camera_instance: CameraInstance, enable: i32 },
    /// Enable/Disable software auto white balance: 0 disable, !0 enable.
    ///
    /// Setting the resolution turns this feature off.
    SoftwareAutoWhiteBalance { camera_instance: CameraInstance, enable: i32 },
}

impl Call {
    /// The camera instance that the call acts on, if it acts on one.
    pub open spec fn camera_instance(self) -> Option<CameraInstance> {
        match self {
            Call::InitCamera | Call::InitCamera2 { .. } | Call::ReleaseBuffer { .. } => None,
            Call::SetResolution { camera_instance, .. }
            | Call::SetMode { camera_instance, .. }
            | Call::GetFormat { camera_instance }
            | Call::Capture { camera_instance, .. }
            | Call::CloseCamera { camera_instance }
            | Call::ResetControl { camera_instance, .. }
            | Call::SetControl { camera_instance, .. }
            | Call::GetControl { camera_instance, .. }
            | Call::SoftwareAutoExposure { camera_instance, .. }
            | Call::SoftwareAutoWhiteBalance { camera_instance, .. } => Some(camera_instance),
        }
    }
}

/// Each encoding tag is the code of its four characters.
pub proof fn lemma_encoding_tags_are_fourcc()
    ensures
        IMAGE_ENCODING_I420 == fourcc('I', '4', '2', '0'),
        IMAGE_ENCODING_JPEG == fourcc('J', 'P', 'E', 'G'),
        IMAGE_ENCODING_RAW_BAYER == fourcc('R', 'A', 'W', ' '),
        IMAGE_ENCODING_BMP == fourcc('B', 'M', 'P', ' '),
        IMAGE_ENCODING_PNG == fourcc('P', 'N', 'G', '\''),
{
    assert(0x3032_3449u32 == (0x49u32 | 0x34u32 << 8 | 0x32u32 << 16 | 0x30u32 << 24))
        by (bit_vector);
    assert(0x4745_504Au32 == (0x4Au32 | 0x50u32 << 8 | 0x45u32 << 16 | 0x47u32 << 24))
        by (bit_vector);
    assert(0x2057_4152u32 == (0x52u32 | 0x41u32 << 8 | 0x57u32 << 16 | 0x20u32 << 24))
        by (bit_vector);
    assert(0x2050_4D42u32 == (0x42u32 | 0x4Du32 << 8 | 0x50u32 << 16 | 0x20u32 << 24))
        by (bit_vector);
    assert(0x2747_4E50u32 == (0x50u32 | 0x4Eu32 << 8 | 0x47u32 << 16 | 0x27u32 << 24))
        by (bit_vector);
}

/// The unknown-time value is the least 64-bit signed integer: of its bits,
/// the highest is set and no other.
pub proof fn lemma_time_unknown_is_minimum()
    ensures
        TIME_UNKNOWN == i64::MIN,
        TIME_UNKNOWN == -0x8000_0000_0000_0000,
        TIME_UNKNOWN as u64 == 1u64 << 63,
{
    assert((-0x8000_0000_0000_0000i64) as u64 == 1u64 << 63) by (bit_vector);
}

} // verus!
