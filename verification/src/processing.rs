//! The remap that every incoming colour sample goes through.
//!
//! The remap is a table of 256 bytes, built once. It applies a contrast curve
//! anchored at a gray point, and then turns every value above the white
//! cutoff into white.

use vstd::prelude::*;

verus! {

/// Number of bytes that the source stream holds for each pixel.
pub const SOURCE_BYTES_PER_PIXEL: usize = 4;

/// A contrast curve, sampled at each of the 256 intensities.
///
/// Where the gray point is one of the intensities, the curve is anchored at
/// it: that intensity is mapped to itself, whatever `samples` holds there.
#[derive(Debug, Copy, Clone)]
pub struct ContrastCurve {
    /// The gray point, if it is one of the intensities.
    pub gray_point: Option<u8>,
    /// The curve at each intensity.
    pub samples: [u8; 256],
}

/// What the remap is built from.
#[derive(Debug, Copy, Clone)]
pub struct PostProcConfig {
    /// The contrast curve; `None` leaves every intensity as it is.
    pub contrast: Option<ContrastCurve>,
    /// Every value above this becomes 255.
    pub white_cutoff: u8,
}

/// The remap table.
pub struct PostProcBin {
    pub data: [u8; 256],
}

/// `gray` is a gray point of the remap: the gray point of the contrast curve,
/// or any intensity where there is no curve.
pub open spec fn is_gray_point(config: PostProcConfig, gray: u8) -> bool {
    match config.contrast {
        None => true,
        Some(curve) => curve.gray_point == Some(gray),
    }
}

/// The intensity `i` after the contrast curve, before the cutoff.
pub open spec fn curve_value(contrast: Option<ContrastCurve>, i: int) -> u8 {
    match contrast {
        None => i as u8,
        Some(curve) => if curve.gray_point == Some(i as u8) {
            i as u8
        } else {
            curve.samples@[i]
        },
    }
}

/// The entry of the remap table for intensity `i`.
pub open spec fn lut_value(config: PostProcConfig, i: int) -> u8 {
    let value = curve_value(config.contrast, i);
    if value > config.white_cutoff {
        255
    } else {
        value
    }
}

/// Position in the source stream of the sample that becomes sample `k` of
/// the panel's stream. A panel with one colour channel takes the first byte
/// of each pixel of the source, any other panel takes every byte.
pub open spec fn source_index(color_samples: usize, k: int) -> int {
    if color_samples == 1 {
        SOURCE_BYTES_PER_PIXEL * k
    } else {
        k
    }
}

/// Number of samples that a source stream of `len` bytes gives.
pub open spec fn streamlined_len(color_samples: usize, len: int) -> int {
    if color_samples == 1 {
        (len + SOURCE_BYTES_PER_PIXEL - 1) / (SOURCE_BYTES_PER_PIXEL as int)
    } else {
        len
    }
}

/// The panel's stream for a source stream: the samples taken from the
/// source, each remapped through the table `lut`.
pub open spec fn streamlined(pixels: Seq<u8>, lut: Seq<u8>, color_samples: usize) -> Seq<u8> {
    Seq::new(
        streamlined_len(color_samples, pixels.len() as int) as nat,
        |k: int| lut[pixels[source_index(color_samples, k)] as int],
    )
}

impl PostProcBin {
    /// Builds the remap table.
    ///
    /// Without a contrast curve the table leaves every intensity up to the
    /// cutoff as it is. With one, the gray point is mapped to itself as long
    /// as the cutoff is not below it.
    pub fn new(config: &PostProcConfig) -> (bin: PostProcBin)
        ensures
            forall|i: int| 0 <= i < 256 ==> #[trigger] bin.data@[i] == lut_value(*config, i),
            config.contrast is None ==> forall|i: int|
                0 <= i < 256 ==> #[trigger] bin.data@[i] == (if i > config.white_cutoff {
                    255
                } else {
                    i
                }),
            forall|gray: u8|
                is_gray_point(*config, gray) && config.white_cutoff >= gray ==> bin.data@[gray as int]
                    == gray,
    {
        let mut data: [u8; 256] = [0u8; 256];
        let mut i: usize = 0;
        while i < 256
            invariant
                i <= 256,
                forall|j: int| 0 <= j < i ==> #[trigger] data@[j] == lut_value(*config, j),
            decreases 256 - i,
        {
            let value: u8 = match config.contrast {
                None => i as u8,
                Some(curve) => match curve.gray_point {
                    Some(gray) => if i == gray as usize {
                        gray
                    } else {
                        curve.samples[i]
                    },
                    None => curve.samples[i],
                },
            };
            let cut: u8 = if value > config.white_cutoff {
                255
            } else {
                value
            };
            data[i] = cut;
            i += 1;
        }
        PostProcBin { data }
    }
}

/// Brings a stream of source bytes into the panel's format and remaps it.
///
/// For a panel with one colour channel only the first byte of each pixel of
/// the source is taken, which drops the other channels without converting the
/// colour to a luminance. Each sample taken goes through the remap table.
pub fn streamline_pixel_color(
    pixels: &Vec<u8>,
    post_proc: &PostProcBin,
    color_samples: usize,
) -> (out: Vec<u8>)
    ensures
        out@ == streamlined(pixels@, post_proc.data@, color_samples),
        out@.len() == streamlined_len(color_samples, pixels@.len() as int),
{
    let step: usize = if color_samples == 1 {
        SOURCE_BYTES_PER_PIXEL
    } else {
        1
    };
    let len = pixels.len();
    let mut out: Vec<u8> = Vec::new();
    let mut i: usize = 0;
    while i < len
        invariant
            len == pixels@.len(),
            step == if color_samples == 1 { SOURCE_BYTES_PER_PIXEL } else { 1usize },
            i <= len,
            i < len ==> i == source_index(color_samples, out@.len() as int),
            i == len ==> out@.len() == streamlined_len(color_samples, len as int),
            forall|k: int|
                0 <= k < out@.len() ==> 0 <= source_index(color_samples, k) < len
                    && #[trigger] out@[k] == post_proc.data@[pixels@[source_index(
                    color_samples,
                    k,
                )] as int],
        decreases len - i,
    {
        let sample: u8 = pixels[i];
        out.push(post_proc.data[sample as usize]);
        i = if len - i > step {
            i + step
        } else {
            len
        };
    }
    assert(out@ =~= streamlined(pixels@, post_proc.data@, color_samples));
    out
}

} // verus!
