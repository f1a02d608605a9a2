use vstd::prelude::*;

use crate::angle::{Angle, ScreenAngles};
use crate::plane::Size;

verus! {

/// The number of color channels that the halftone effect works on.
pub const CHANNEL_COUNT: usize = 3;

/// The factor by which a channel is upsampled before its dots are drawn.
pub const UPSAMPLE_FACTOR: usize = 2;

/// The spacing, on the upsampled plane, of the grid that carries the dots.
pub const GRID_SPACING: usize = 7;

/// The width of the median filter that smooths a channel before sampling.
pub const MEDIAN_KERNEL: usize = 7;

/// A step of the image-processing library that the rendering relies on.
#[derive(Clone, Copy, Debug, PartialEq, Eq, Structural)]
pub enum Operation {
    Split,
    MedianBlur,
    Resize,
    DrawCircle,
    Merge,
}

/// Why a halftone rendering was given up.
#[derive(Clone, Copy, Debug, PartialEq, Eq, Structural)]
pub enum HalftoneError {
    /// The image does not have three channels; `count` it has.
    InvalidChannelCount { count: usize },
    /// Channel `channel` differs in size from channel 0.
    SizeMismatch { channel: usize },
    /// The upsampled plane of a channel would not fit in memory indices.
    SizeOverflow { channel: usize },
    /// A step of the image-processing library failed on channel `channel`.
    ExternalFailure { channel: usize, operation: Operation },
}

/// The size of a plane scaled up by `UPSAMPLE_FACTOR`.
pub open spec fn upsampled(s: Size) -> (int, int) {
    (2 * s.rows, 2 * s.cols)
}

/// The size of a plane scaled down by `UPSAMPLE_FACTOR`, rounding down.
pub open spec fn downsampled(s: Size) -> Size {
    Size { rows: s.rows / 2, cols: s.cols / 2 }
}

/// The size of `s` scaled up by `UPSAMPLE_FACTOR`; `None` where it does not
/// fit in `usize`.
pub fn upsample_size(s: Size) -> (r: Option<Size>)
    ensures
        r is Some <==> upsampled(s).0 <= usize::MAX && upsampled(s).1 <= usize::MAX,
        r matches Some(u) ==> (u.rows as int, u.cols as int) == upsampled(s),
{
    match (s.rows.checked_mul(UPSAMPLE_FACTOR), s.cols.checked_mul(UPSAMPLE_FACTOR)) {
        (Some(rows), Some(cols)) => Some(Size { rows, cols }),
        _ => None,
    }
}

/// The size of `s` scaled down by `UPSAMPLE_FACTOR`.
pub fn downsample_size(s: Size) -> (r: Size)
    ensures
        r == downsampled(s),
{
    Size { rows: s.rows / UPSAMPLE_FACTOR, cols: s.cols / UPSAMPLE_FACTOR }
}

/// Scaling a plane up and then down again gives back its size exactly.
pub proof fn lemma_scale_round_trip(s: Size, u: Size)
    requires
        (u.rows as int, u.cols as int) == upsampled(s),
    ensures
        downsampled(u) == s,
{
}

/// Checks that an image has three channels of one size, and gives that size.
pub fn check_channels(sizes: &Vec<Size>) -> (r: Result<Size, HalftoneError>)
    ensures
        sizes@.len() != 3 <==> r == Err::<Size, HalftoneError>(
            HalftoneError::InvalidChannelCount { count: sizes@.len() as usize },
        ),
        r is Ok <==> sizes@.len() == 3 && forall|i: int| 0 <= i < 3 ==> #[trigger] sizes@[i] == sizes@[0],
        r matches Ok(s) ==> s == sizes@[0],
        r matches Err(HalftoneError::SizeMismatch { channel }) ==> sizes@.len() == 3 && channel
            < 3 && sizes@[channel as int] != sizes@[0] && forall|i: int|
            0 <= i < channel ==> #[trigger] sizes@[i] == sizes@[0],
        r matches Err(e) ==> (e is InvalidChannelCount || e is SizeMismatch) && (
        e is InvalidChannelCount <==> sizes@.len() != 3),
{
    if sizes.len() != CHANNEL_COUNT {
        return Err(HalftoneError::InvalidChannelCount { count: sizes.len() });
    }
    let first = sizes[0];
    let mut i: usize = 1;
    while i < CHANNEL_COUNT
        invariant
            sizes@.len() == 3,
            first == sizes@[0],
            1 <= i <= 3,
            forall|k: int| 0 <= k < i ==> #[trigger] sizes@[k] == first,
        decreases 3 - i,
    {
        if sizes[i] != first {
            return Err(HalftoneError::SizeMismatch { channel: i });
        }
        i = i + 1;
    }
    Ok(first)
}

/// How one channel is rendered: the angle of its grid, the size of the
/// canvas on which its dots are drawn, and the size it is brought back to.
#[derive(Clone, Copy, Debug, PartialEq, Eq, Structural)]
pub struct ChannelSetup {
    pub channel: usize,
    pub angle: Angle,
    pub canvas: Size,
    pub output: Size,
    pub spacing: usize,
    pub median_kernel: usize,
}

/// Sets up the rendering of channel `channel` of an image of size `size`:
/// its grid turned by the channel's screen angle, its canvas upsampled, its
/// result the size of the channel.
pub fn channel_setup(size: Size, channel: usize, angles: &ScreenAngles) -> (r: Result<
    ChannelSetup,
    HalftoneError,
>)
    requires
        channel < 3,
    ensures
        r is Ok <==> upsampled(size).0 <= usize::MAX && upsampled(size).1 <= usize::MAX,
        r matches Err(e) ==> e == (HalftoneError::SizeOverflow { channel }),
        r matches Ok(c) ==> {
            &&& c.channel == channel
            &&& c.angle@ == angles.angle_spec(channel as int)
            &&& (c.canvas.rows as int, c.canvas.cols as int) == upsampled(size)
            &&& c.output == size
            &&& c.output == downsampled(c.canvas)
            &&& c.spacing == 7
            &&& c.median_kernel == 7
        },
{
    match upsample_size(size) {
        Some(canvas) => {
            let output = downsample_size(canvas);
            proof {
                lemma_scale_round_trip(size, canvas);
            }
            Ok(
                ChannelSetup {
                    channel,
                    angle: angles.angle(channel),
                    canvas,
                    output,
                    spacing: GRID_SPACING,
                    median_kernel: MEDIAN_KERNEL,
                },
            )
        },
        None => Err(HalftoneError::SizeOverflow { channel }),
    }
}

/// Setup `c` is the one that `channel_setup` gives for channel `k` of an
/// image of size `size`.
pub open spec fn is_setup_for(c: ChannelSetup, size: Size, k: int, angles: ScreenAngles) -> bool {
    &&& c.channel == k
    &&& c.angle@ == angles.angle_spec(k)
    &&& (c.canvas.rows as int, c.canvas.cols as int) == upsampled(size)
    &&& c.output == size
    &&& c.spacing == 7
    &&& c.median_kernel == 7
}

/// Plans the rendering of an image whose channels have the sizes `sizes`:
/// one setup per channel, in channel order, each with its own screen angle.
/// The setups share nothing, so the channels can be rendered in any order.
pub fn plan_channels(sizes: &Vec<Size>, angles: &ScreenAngles) -> (r: Result<
    Vec<ChannelSetup>,
    HalftoneError,
>)
    ensures
        r is Ok <==> check_channels_ok(sizes@) && upsampled(sizes@[0]).0 <= usize::MAX
            && upsampled(sizes@[0]).1 <= usize::MAX,
        sizes@.len() != 3 ==> r == Err::<Vec<ChannelSetup>, HalftoneError>(
            HalftoneError::InvalidChannelCount { count: sizes@.len() as usize },
        ),
        sizes@.len() == 3 && !check_channels_ok(sizes@) ==> r matches Err(
            HalftoneError::SizeMismatch { .. },
        ),
        r matches Err(HalftoneError::SizeMismatch { channel }) ==> sizes@.len() == 3 && channel
            < 3 && sizes@[channel as int] != sizes@[0] && forall|i: int|
            0 <= i < channel ==> #[trigger] sizes@[i] == sizes@[0],
        check_channels_ok(sizes@) && r is Err ==> r == Err::<Vec<ChannelSetup>, HalftoneError>(
            HalftoneError::SizeOverflow { channel: 0 },
        ),
        r matches Ok(v) ==> v@.len() == 3 && forall|k: int|
            0 <= k < 3 ==> is_setup_for(#[trigger] v@[k], sizes@[0], k, *angles),
{
    let size = match check_channels(sizes) {
        Ok(s) => s,
        Err(e) => {
            return Err(e);
        },
    };
    let mut setups: Vec<ChannelSetup> = Vec::new();
    let mut k: usize = 0;
    while k < CHANNEL_COUNT
        invariant
            check_channels_ok(sizes@),
            size == sizes@[0],
            k <= 3,
            k > 0 ==> upsampled(size).0 <= usize::MAX && upsampled(size).1 <= usize::MAX,
            setups@.len() == k,
            forall|j: int| 0 <= j < k ==> is_setup_for(#[trigger] setups@[j], size, j, *angles),
        decreases 3 - k,
    {
        match channel_setup(size, k, angles) {
            Ok(c) => setups.push(c),
            Err(e) => {
                return Err(e);
            },
        }
        k = k + 1;
    }
    Ok(setups)
}

/// The image has three channels of one size.
pub open spec fn check_channels_ok(sizes: Seq<Size>) -> bool {
    sizes.len() == 3 && forall|i: int| 0 <= i < 3 ==> #[trigger] sizes[i] == sizes[0]
}

} // verus!
