use arducam_mipicamera::c;
use arducam_mipicamera::to_result;
use arducam_mipicamera::Encoding;

#[test]
fn to_result_zero_is_ok() {
    assert_eq!(to_result(0), Ok(()));
}

#[test]
fn to_result_nonzero_is_err() {
    assert_eq!(to_result(1), Err(()));
    assert_eq!(to_result(-1), Err(()));
    assert_eq!(to_result(255), Err(()));
    assert_eq!(to_result(i32::MAX), Err(()));
    assert_eq!(to_result(i32::MIN), Err(()));
}

#[test]
fn encoding_tags_are_the_four_characters() {
    assert_eq!(c::IMAGE_ENCODING_I420, u32::from_le_bytes(*b"I420"));
    assert_eq!(c::IMAGE_ENCODING_JPEG, u32::from_le_bytes(*b"JPEG"));
    assert_eq!(c::IMAGE_ENCODING_RAW_BAYER, u32::from_le_bytes(*b"RAW "));
    assert_eq!(c::IMAGE_ENCODING_BMP, u32::from_le_bytes(*b"BMP "));
    assert_eq!(c::IMAGE_ENCODING_PNG, u32::from_le_bytes(*b"PNG'"));
}

#[test]
fn encoding_tags_have_their_exact_values() {
    assert_eq!(c::IMAGE_ENCODING_I420, 808596553);
    assert_eq!(c::IMAGE_ENCODING_JPEG, 1195724874);
    assert_eq!(c::IMAGE_ENCODING_RAW_BAYER, 542589266);
    assert_eq!(c::IMAGE_ENCODING_BMP, 542133570);
    assert_eq!(c::IMAGE_ENCODING_PNG, 658984528);
}

#[test]
fn encoding_codes_are_the_tags() {
    assert_eq!(Encoding::I420.code(), c::IMAGE_ENCODING_I420);
    assert_eq!(Encoding::Jpeg.code(), c::IMAGE_ENCODING_JPEG);
    assert_eq!(Encoding::RawBayer.code(), c::IMAGE_ENCODING_RAW_BAYER);
    assert_eq!(Encoding::Bmp.code(), c::IMAGE_ENCODING_BMP);
    assert_eq!(Encoding::Png.code(), c::IMAGE_ENCODING_PNG);
}

#[test]
fn encoding_codes_are_distinct() {
    let all = [
        Encoding::I420,
        Encoding::Jpeg,
        Encoding::RawBayer,
        Encoding::Bmp,
        Encoding::Png,
    ];
    for (i, a) in all.iter().enumerate() {
        for (j, b) in all.iter().enumerate() {
            assert_eq!(a.code() == b.code(), i == j);
            assert_eq!(a == b, i == j);
        }
    }
}

#[test]
fn time_unknown_is_the_minimum() {
    assert_eq!(c::TIME_UNKNOWN, i64::MIN);
    assert_eq!(c::TIME_UNKNOWN, 1i64 << 63);
    assert_eq!(c::TIME_UNKNOWN as u64, 0x8000_0000_0000_0000);
    assert_eq!(c::TIME_UNKNOWN, -9223372036854775808);
}

#[test]
fn buffer_header_flags_have_their_bits() {
    assert_eq!(c::MMAL_BUFFER_HEADER_FLAG_EOS, 1 << 0);
    assert_eq!(c::MMAL_BUFFER_HEADER_FLAG_FRAME_START, 1 << 1);
    assert_eq!(c::MMAL_BUFFER_HEADER_FLAG_FRAME_END, 1 << 2);
    assert_eq!(
        c::MMAL_BUFFER_HEADER_FLAG_FRAME,
        c::MMAL_BUFFER_HEADER_FLAG_FRAME_START | c::MMAL_BUFFER_HEADER_FLAG_FRAME_END
    );
    assert_eq!(c::MMAL_BUFFER_HEADER_FLAG_KEYFRAME, 1 << 3);
    assert_eq!(c::MMAL_BUFFER_HEADER_FLAG_DISCONTINUITY, 1 << 4);
    assert_eq!(c::MMAL_BUFFER_HEADER_FLAG_CONFIG, 1 << 5);
    assert_eq!(c::MMAL_BUFFER_HEADER_FLAG_ENCRYPTED, 1 << 6);
    assert_eq!(c::MMAL_BUFFER_HEADER_FLAG_CODECSIDEINFO, 1 << 7);
    assert_eq!(c::MMAL_BUFFER_HEADER_FLAGS_SNAPSHOT, 1 << 8);
    assert_eq!(c::MMAL_BUFFER_HEADER_FLAG_CORRUPTED, 1 << 9);
    assert_eq!(c::MMAL_BUFFER_HEADER_FLAG_TRANSMISSION_FAILED, 1 << 10);
    assert_eq!(c::MMAL_BUFFER_HEADER_FLAG_DECODEONLY, 1 << 11);
    assert_eq!(c::MMAL_BUFFER_HEADER_FLAG_NAL_END, 1 << 12);
}

#[test]
fn output_flags_have_their_values() {
    assert_eq!(c::OUTPUT_FLAG_KEEP_BUFFER_REQUIREMENTS, 8);
    assert_eq!(c::OUTPUT_FLAG_BUFFER_ALLOCATION_USE_MMAL_CORE, 16);
}

#[test]
fn video_levels_and_profiles_have_their_values() {
    assert_eq!(c::VIDEO_LEVEL_H264_4, 28);
    assert_eq!(c::VIDEO_LEVEL_H264_41, 29);
    assert_eq!(c::VIDEO_LEVEL_H264_42, 30);
    assert_eq!(c::VIDEO_PROFILE_H264_BASELINE, 25);
    assert_eq!(c::VIDEO_PROFILE_H264_MAIN, 26);
    assert_eq!(c::VIDEO_PROFILE_H264_HIGH, 28);
}

#[test]
fn intra_refresh_modes_have_their_values() {
    assert_eq!(c::VIDEO_INTRA_REFRESH_CYCLIC, 0);
    assert_eq!(c::VIDEO_INTRA_REFRESH_ADAPTIVE, 1);
    assert_eq!(c::VIDEO_INTRA_REFRESH_BOTH, 2);
    assert_eq!(c::VIDEO_INTRA_REFRESH_CYCLIC_MROWS, 0x7F00_0001);
}

#[test]
fn control_id_bases_have_their_values() {
    assert_eq!(c::V4L2_CTRL_CLASS_USER, 0x0098_0000);
    assert_eq!(c::V4L2_CID_BASE, c::V4L2_CTRL_CLASS_USER | 0x900);
    assert_eq!(c::V4L2_CID_ARDUCAM_BASE, c::V4L2_CID_BASE + 0x1000);
    assert_eq!(c::V4L2_CID_ARDUCAM_EXT_TRI, c::V4L2_CID_ARDUCAM_BASE + 1);
    assert_eq!(c::V4L2_CID_ARDUCAM_EXT_TRI, 9967873);
}

#[test]
fn plain_structs_copy_and_compare() {
    let window = c::Rectangle { x: 1, y: 2, width: 640, height: 480 };
    let params = c::PreviewParams { fullscreen: 0, opacity: 255, window };
    let copy = params;
    assert_eq!(copy, params);
    assert_eq!(copy.window.width, 640);
    let rate = c::Fract { numerator: 1, denominator: 30 };
    assert_ne!(rate, c::Fract { numerator: 1, denominator: 60 });
    let ctrl = c::CameraCtrl { id: 5, desc: 0, max_value: 10, min_value: -10, default_value: 0 };
    assert_eq!(ctrl.clone(), ctrl);
    let state = c::VideoEncoderState {
        encoding: 0,
        bitrate: 17_000_000,
        intraperiod: -1,
        quantisation_parameter: 0,
        b_inline_headers: 0,
        immutable_input: 1,
        profile: c::VIDEO_PROFILE_H264_HIGH as i32,
        level: c::VIDEO_LEVEL_H264_4 as i32,
        inline_motion_vectors: 0,
        intra_refresh_type: -1,
        add_sps_timing: 0,
        slices: 1,
    };
    assert_eq!(state.profile, 28);
    assert_eq!(format!("{:?}", rate), "Fract { numerator: 1, denominator: 30 }");
}
