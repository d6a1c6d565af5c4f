use unity_bridge::marshal::NulError;
use unity_bridge::registry::CallbackSlot;
use unity_bridge::video::{
    derive_stride, image_format_to_u32, notify_video_frame,
    rustdesk_unity_register_video_frame_callback, truncate_to_u32, ImageFormat, VideoDispatch,
};

fn registered(callback: u8) -> CallbackSlot<u8> {
    let mut slot = CallbackSlot::new();
    rustdesk_unity_register_video_frame_callback(&mut slot, Some(callback));
    slot
}

#[test]
fn stride_is_the_row_size_of_the_buffer() {
    assert_eq!(derive_stride(100, 100, 40000, 0), 400);
}

#[test]
fn stride_of_a_frame_without_rows_is_four_bytes_per_pixel() {
    assert_eq!(derive_stride(50, 0, 0, 0), 200);
    assert_eq!(derive_stride(50, 0, 40000, 0), 200);
}

#[test]
fn stride_of_an_empty_buffer_is_four_bytes_per_pixel() {
    assert_eq!(derive_stride(50, 10, 0, 0), 200);
    assert_eq!(derive_stride(50, 10, 9, 0), 200);
}

#[test]
fn a_larger_hint_wins() {
    assert_eq!(derive_stride(100, 100, 40000, 500), 500);
}

#[test]
fn a_smaller_hint_loses() {
    assert_eq!(derive_stride(100, 100, 40000, 399), 400);
    assert_eq!(derive_stride(100, 100, 40000, 400), 400);
}

#[test]
fn stride_rounds_the_row_size_down() {
    assert_eq!(derive_stride(3, 7, 100, 0), 14);
}

#[test]
fn dense_stride_saturates() {
    assert_eq!(derive_stride(usize::MAX, 0, 0, 0), usize::MAX);
    assert_eq!(derive_stride(usize::MAX / 4 + 1, 0, 0, 0), usize::MAX);
    assert_eq!(derive_stride(usize::MAX / 4, 0, 0, 0), usize::MAX - 3);
}

#[test]
fn formats_have_their_numbers() {
    assert_eq!(image_format_to_u32(ImageFormat::Raw), 0);
    assert_eq!(image_format_to_u32(ImageFormat::ABGR), 1);
    assert_eq!(image_format_to_u32(ImageFormat::ARGB), 2);
}

#[test]
fn format_numbers_round_trip() {
    let table = [ImageFormat::Raw, ImageFormat::ABGR, ImageFormat::ARGB];
    for format in table {
        let tag = image_format_to_u32(format);
        assert_eq!(table[tag as usize], format);
    }
    for (tag, format) in table.iter().enumerate() {
        assert_eq!(image_format_to_u32(*format) as usize, tag);
    }
}

#[test]
fn truncation_keeps_the_low_bits() {
    assert_eq!(truncate_to_u32(0), 0);
    assert_eq!(truncate_to_u32(0xffff_ffff), 0xffff_ffff);
    assert_eq!(truncate_to_u32(7), 7);
}

#[test]
fn truncation_drops_the_high_bits() {
    let wide = 0x1_0000_0005u64;
    if let Ok(value) = usize::try_from(wide) {
        assert_eq!(truncate_to_u32(value), 5);
    }
}

#[test]
fn a_frame_without_a_callback_calls_nothing() {
    let slot: CallbackSlot<u8> = CallbackSlot::new();
    let buffer = [0u8; 16];
    let action = notify_video_frame(&slot, "peer", 0, 2, 2, 0, ImageFormat::Raw, &buffer);
    assert!(matches!(action, VideoDispatch::Skip));
}

#[test]
fn a_frame_after_unregistering_calls_nothing() {
    let mut slot = registered(9);
    rustdesk_unity_register_video_frame_callback(&mut slot, None);
    let buffer = [0u8; 16];
    let action = notify_video_frame(&slot, "peer", 0, 2, 2, 0, ImageFormat::Raw, &buffer);
    assert!(matches!(action, VideoDispatch::Skip));
}

#[test]
fn a_frame_is_handed_to_the_registered_callback() {
    let slot = registered(9);
    let buffer = vec![7u8; 40000];
    let action = notify_video_frame(&slot, "peer", 3, 100, 100, 0, ImageFormat::ARGB, &buffer);
    match action {
        VideoDispatch::Invoke(call) => {
            assert_eq!(call.callback, 9);
            assert_eq!(call.peer_id, b"peer\0".to_vec());
            assert_eq!(call.display, 3);
            assert_eq!(call.width, 100);
            assert_eq!(call.height, 100);
            assert_eq!(call.stride, 400);
            assert_eq!(call.format, 2);
            assert_eq!(call.buffer.as_ptr(), buffer.as_ptr());
            assert_eq!(call.buffer.len(), 40000);
        }
        _ => panic!("the callback was not called"),
    }
}

#[test]
fn a_frame_takes_the_larger_hint() {
    let slot = registered(1);
    let buffer = vec![0u8; 40000];
    let action = notify_video_frame(&slot, "p", 0, 100, 100, 500, ImageFormat::Raw, &buffer);
    match action {
        VideoDispatch::Invoke(call) => assert_eq!(call.stride, 500),
        _ => panic!("the callback was not called"),
    }
}

#[test]
fn a_frame_without_rows_takes_the_dense_stride() {
    let slot = registered(1);
    let action = notify_video_frame(&slot, "p", 0, 50, 0, 0, ImageFormat::ABGR, &[]);
    match action {
        VideoDispatch::Invoke(call) => {
            assert_eq!(call.stride, 200);
            assert_eq!(call.format, 1);
            assert_eq!(call.buffer.len(), 0);
        }
        _ => panic!("the callback was not called"),
    }
}

#[test]
fn a_frame_with_a_bad_peer_id_is_dropped() {
    let slot = registered(1);
    let buffer = [0u8; 4];
    let action = notify_video_frame(&slot, "pe\0er", 0, 1, 1, 0, ImageFormat::Raw, &buffer);
    match action {
        VideoDispatch::BadPeerId(err) => assert_eq!(err, NulError { position: 2 }),
        _ => panic!("the frame was not dropped"),
    }
}

#[test]
fn a_bad_peer_id_without_a_callback_calls_nothing() {
    let slot: CallbackSlot<u8> = CallbackSlot::new();
    let action = notify_video_frame(&slot, "pe\0er", 0, 1, 1, 0, ImageFormat::Raw, &[]);
    assert!(matches!(action, VideoDispatch::Skip));
}

#[test]
fn the_last_video_registration_wins() {
    let mut slot = registered(1);
    rustdesk_unity_register_video_frame_callback(&mut slot, Some(2));
    assert_eq!(slot.get(), Some(2));
}
