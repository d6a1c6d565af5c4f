//! Handing a decoded video frame to the host: which callback to call, and
//! with which arguments.

use crate::marshal::{c_string, first_nul, to_c_string, NulError};
use crate::registry::CallbackSlot;
use vstd::prelude::*;
use vstd::utf8::encode_utf8;

verus! {

/// How the pixels of a frame are laid out.
#[derive(Clone, Copy, Debug, PartialEq, Eq, Structural)]
pub enum ImageFormat {
    Raw,
    ABGR,
    ARGB,
}

/// The number that stands for a pixel format in the call to the host.
pub open spec fn format_tag(format: ImageFormat) -> u32 {
    match format {
        ImageFormat::Raw => 0,
        ImageFormat::ABGR => 1,
        ImageFormat::ARGB => 2,
    }
}

/// Four bytes for each of `width` pixels, or the largest `usize` where that
/// product does not fit.
pub open spec fn dense_row(width: int) -> int {
    if width * 4 > usize::MAX {
        usize::MAX as int
    } else {
        width * 4
    }
}

/// The number of bytes from one row of a frame to the next. It is the
/// buffer's length divided by the height; where that is zero, or the height
/// is, four bytes per pixel are assumed. A larger hint of the source wins.
pub open spec fn derived_stride(width: int, height: int, buffer_len: int, stride_hint: int) -> int {
    let rows = if height > 0 {
        buffer_len / height
    } else {
        0
    };
    let stride = if rows == 0 {
        dense_row(width)
    } else {
        rows
    };
    if stride_hint > stride {
        stride_hint
    } else {
        stride
    }
}

/// The low 32 bits of a size, as the host receives it.
pub open spec fn low_u32(value: int) -> int {
    value % 0x1_0000_0000
}

/// One call of the video callback: the callback and its arguments. The
/// pixel buffer is lent to the host for the call and is handed over by its
/// address and its length.
pub struct VideoFrameCall<'a, F> {
    pub callback: F,
    /// The peer id as a null-terminated string.
    pub peer_id: Vec<u8>,
    pub display: u32,
    pub width: u32,
    pub height: u32,
    pub stride: u32,
    pub format: u32,
    pub buffer: &'a [u8],
}

/// A [`VideoFrameCall`] as mathematical values.
pub struct VideoFrameCallView<F> {
    pub callback: F,
    pub peer_id: Seq<u8>,
    pub display: int,
    pub width: int,
    pub height: int,
    pub stride: int,
    pub format: int,
    pub buffer: Seq<u8>,
}

impl<'a, F> View for VideoFrameCall<'a, F> {
    type V = VideoFrameCallView<F>;

    open spec fn view(&self) -> VideoFrameCallView<F> {
        VideoFrameCallView {
            callback: self.callback,
            peer_id: self.peer_id@,
            display: self.display as int,
            width: self.width as int,
            height: self.height as int,
            stride: self.stride as int,
            format: self.format as int,
            buffer: self.buffer@,
        }
    }
}

/// What is to be done with a video frame.
pub enum VideoDispatch<'a, F> {
    /// No callback is registered: nothing is called.
    Skip,
    /// The peer id holds a zero byte: the frame is dropped.
    BadPeerId(NulError),
    /// The callback is to be called once, with these arguments.
    Invoke(VideoFrameCall<'a, F>),
}

/// A [`VideoDispatch`] as mathematical values.
pub enum VideoDispatchView<F> {
    Skip,
    BadPeerId { position: int },
    Invoke(VideoFrameCallView<F>),
}

impl<'a, F> View for VideoDispatch<'a, F> {
    type V = VideoDispatchView<F>;

    open spec fn view(&self) -> VideoDispatchView<F> {
        match self {
            VideoDispatch::Skip => VideoDispatchView::Skip,
            VideoDispatch::BadPeerId(err) => VideoDispatchView::BadPeerId {
                position: err.position as int,
            },
            VideoDispatch::Invoke(call) => VideoDispatchView::Invoke(call@),
        }
    }
}

/// What is to be done with a frame, given the callback that is registered,
/// the bytes of the peer id, the frame's geometry as the source gave it, and
/// its pixel buffer.
pub open spec fn video_dispatch<F>(
    callback: Option<F>,
    peer_id: Seq<u8>,
    display: int,
    width: int,
    height: int,
    stride_hint: int,
    format: ImageFormat,
    buffer: Seq<u8>,
) -> VideoDispatchView<F> {
    match callback {
        None => VideoDispatchView::Skip,
        Some(callback) => match c_string(peer_id) {
            Err(position) => VideoDispatchView::BadPeerId { position },
            Ok(peer) => VideoDispatchView::Invoke(
                VideoFrameCallView {
                    callback,
                    peer_id: peer,
                    display: low_u32(display),
                    width: low_u32(width),
                    height: low_u32(height),
                    stride: low_u32(
                        derived_stride(width, height, buffer.len() as int, stride_hint),
                    ),
                    format: format_tag(format) as int,
                    buffer,
                },
            ),
        },
    }
}

/// The number that stands for a pixel format in the call to the host.
pub fn image_format_to_u32(format: ImageFormat) -> (tag: u32)
    ensures
        tag == format_tag(format),
{
    match format {
        ImageFormat::Raw => 0,
        ImageFormat::ABGR => 1,
        ImageFormat::ARGB => 2,
    }
}

/// Derives the stride of a frame from its geometry, the length of its pixel
/// buffer and the hint of the source.
pub fn derive_stride(
    width: usize,
    height: usize,
    buffer_len: usize,
    stride_hint: usize,
) -> (stride: usize)
    ensures
        stride == derived_stride(width as int, height as int, buffer_len as int, stride_hint as int),
{
    let mut stride: usize = if height > 0 {
        buffer_len / height
    } else {
        0
    };
    if stride == 0 {
        stride = match width.checked_mul(4) {
            Some(dense) => dense,
            None => usize::MAX,
        };
    }
    if stride_hint > stride {
        stride = stride_hint;
    }
    stride
}

/// Cuts a size down to the 32 bits that the host receives.
pub fn truncate_to_u32(value: usize) -> (low: u32)
    ensures
        low == low_u32(value as int),
{
    let wide: u64 = value as u64;
    (wide % 0x1_0000_0000) as u32
}

/// Decides what is to be done with a video frame: nothing where no callback
/// is registered or the peer id cannot be encoded, else one call of the
/// registered callback with the derived stride and the format's number.
pub fn notify_video_frame<'a, F: Copy>(
    slot: &CallbackSlot<F>,
    peer_id: &str,
    display: usize,
    width: usize,
    height: usize,
    stride_hint: usize,
    format: ImageFormat,
    buffer: &'a [u8],
) -> (action: VideoDispatch<'a, F>)
    ensures
        action@ == video_dispatch(
            slot.current,
            encode_utf8(peer_id@),
            display as int,
            width as int,
            height as int,
            stride_hint as int,
            format,
            buffer@,
        ),
        action@ matches VideoDispatchView::Invoke(call) ==> first_nul(call.peer_id) == Some(
            call.peer_id.len() - 1,
        ),
{
    let callback = match slot.get() {
        Some(callback) => callback,
        None => {
            return VideoDispatch::Skip;
        },
    };
    let c_peer_id = match to_c_string(peer_id) {
        Ok(value) => value,
        Err(err) => {
            return VideoDispatch::BadPeerId(err);
        },
    };
    let stride: usize = derive_stride(width, height, buffer.len(), stride_hint);
    let format: u32 = image_format_to_u32(format);
    VideoDispatch::Invoke(
        VideoFrameCall {
            callback,
            peer_id: c_peer_id,
            display: truncate_to_u32(display),
            width: truncate_to_u32(width),
            height: truncate_to_u32(height),
            stride: truncate_to_u32(stride),
            format,
            buffer,
        },
    )
}

/// Once a callback is unregistered, a frame calls nothing: whatever was
/// registered before, and whatever the frame.
pub proof fn lemma_unregistered_frame_is_skipped<F: Copy>(
    slot: CallbackSlot<F>,
    callback: F,
    peer_id: Seq<u8>,
    display: int,
    width: int,
    height: int,
    stride_hint: int,
    format: ImageFormat,
    buffer: Seq<u8>,
)
    ensures
        video_dispatch(
            slot.registered(Some(callback)).registered(None).current,
            peer_id,
            display,
            width,
            height,
            stride_hint,
            format,
            buffer,
        ) == VideoDispatchView::<F>::Skip,
{
}

/// The numbers of the pixel formats are 0, 1 and 2, one for each format:
/// each of the three stands for a format, no format has another number, and
/// two formats with one number are one format.
pub proof fn lemma_format_tag_bijective()
    ensures
        format_tag(ImageFormat::Raw) == 0,
        format_tag(ImageFormat::ABGR) == 1,
        format_tag(ImageFormat::ARGB) == 2,
        forall|format: ImageFormat| #[trigger] format_tag(format) <= 2,
        forall|a: ImageFormat, b: ImageFormat| format_tag(a) == format_tag(b) ==> a == b,
{
}

/// Registers the callback that receives video frames, in place of the one
/// registered before; `None` unregisters.
pub fn rustdesk_unity_register_video_frame_callback<F: Copy>(
    slot: &mut CallbackSlot<F>,
    callback: Option<F>,
)
    ensures
        *final(slot) == old(slot).registered(callback),
{
    slot.register(callback);
}

} // verus!
