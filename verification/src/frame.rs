//! Frame sources and decoded frames.
//!
//! A [`WebpVideo`] is one undecoded animated-image container: an immutable
//! byte buffer plus a human-readable label. A [`VideoFrame`] is one fully
//! decoded raster image in a fixed 4-channel, 8-bit, row-major layout.

use vstd::prelude::*;

verus! {

/// Mathematical model of one decoded frame: dimensions plus the pixel bytes.
pub struct FrameModel {
    pub width: u32,
    pub height: u32,
    pub pixels: Seq<u8>,
}

/// One fully decoded raster frame.
///
/// `pixels` holds `width * height` pixels of 4 bytes each (4-channel,
/// 8-bit-per-channel, row-major).
pub struct VideoFrame {
    pub width: u32,
    pub height: u32,
    pub pixels: Vec<u8>,
}

impl View for VideoFrame {
    type V = FrameModel;

    open spec fn view(&self) -> FrameModel {
        FrameModel { width: self.width, height: self.height, pixels: self.pixels@ }
    }
}

impl FrameModel {
    /// The pixel buffer holds exactly 4 bytes per pixel.
    pub open spec fn wf(self) -> bool {
        self.pixels.len() == 4 * self.width * self.height
    }
}

impl VideoFrame {
    /// A deep copy: same dimensions, same pixel bytes.
    pub fn duplicate(&self) -> (r: VideoFrame)
        ensures
            r@ == self@,
    {
        let pixels = self.pixels.clone();
        proof {
            assert(pixels@ =~= self.pixels@);
        }
        VideoFrame { width: self.width, height: self.height, pixels }
    }
}

/// One undecoded animated-image container: bytes plus a label for messages.
#[derive(Clone)]
pub struct WebpVideo {
    pub bytes: Vec<u8>,
    pub label: String,
}

/// What decoding a byte buffer as an animated webp container yields: the
/// ordered frame list, or nothing when the codec rejects the bytes. A
/// function of the bytes alone.
pub uninterp spec fn webp_decoding(bytes: Seq<u8>) -> Option<Seq<FrameModel>>;

/// Relies on image's `WebPDecoder` together with
/// `AnimationDecoder::collect_frames`: whether the bytes decode, and to which
/// frames, depends on the bytes alone; each decoded frame is a canvas-sized
/// 4-channel, 8-bit, row-major raster (an `RgbaImage`).
#[verifier::external_body]
pub(crate) fn decode_webp(bytes: &Vec<u8>) -> (r: Option<Vec<VideoFrame>>)
    ensures
        r is Some <==> webp_decoding(bytes@) is Some,
        r is Some ==> r.unwrap()@.map_values(|f: VideoFrame| f@) == webp_decoding(
            bytes@,
        ).unwrap(),
        r is Some ==> forall|i: int|
            0 <= i < r.unwrap()@.len() ==> (#[trigger] r.unwrap()@[i]@).wf(),
{
    let decoded = image::codecs::webp::WebPDecoder::new(bytes.as_slice()).and_then(
        |decoder| image::AnimationDecoder::into_frames(decoder).collect_frames(),
    );
    match decoded {
        Ok(frames) => Some(
            frames.into_iter().map(
                |frame| {
                    let (width, height) = frame.buffer().dimensions();
                    VideoFrame { width, height, pixels: frame.into_buffer().into_raw() }
                },
            ).collect(),
        ),
        Err(_) => None,
    }
}

} // verus!
