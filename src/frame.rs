//! A video frame: one luma plane and two chroma planes.
use vstd::prelude::*;
use vstd::layout::size_of;
use vstd::arithmetic::power2::lemma2_to64;
use vstd::bits::lemma_usize_shr_is_div;
use crate::math::align_up;
use crate::math::lemma_align_up;
use crate::math::align_power_of_two;
use crate::pixel::ChromaSampling;
use crate::pixel::Pixel;
use crate::pixel::decimate;
use crate::plane::Plane;
use crate::plane::PlaneShape;
use crate::plane::padded_bytes;

verus! {

/// The luma plane that the allocating constructor lays out: the requested
/// size aligned up to blocks of 8, with `luma_padding` on every side.
pub open spec fn luma_shape(width: nat, height: nat, luma_padding: usize) -> PlaneShape {
    PlaneShape {
        width: align_up(width, 3),
        height: align_up(height, 3),
        xdec: 0,
        ydec: 0,
        xpad: luma_padding as nat,
        ypad: luma_padding as nat,
    }
}

/// Each chroma plane that the allocating constructor lays out: the aligned
/// luma size decimated by the format, and the luma padding shifted right by
/// the decimation exponent of each axis (taken as 0 for monochrome).
pub open spec fn chroma_shape(
    width: nat,
    height: nat,
    chroma_sampling: ChromaSampling,
    luma_padding: usize,
) -> PlaneShape {
    let (dx, dy) = chroma_sampling.decimation_or_zero();
    let (cw, ch) = chroma_sampling.chroma_dimensions(align_up(width, 3), align_up(height, 3));
    PlaneShape {
        width: cw,
        height: ch,
        xdec: dx as nat,
        ydec: dy as nat,
        xpad: (luma_padding >> dx) as nat,
        ypad: (luma_padding >> dy) as nat,
    }
}

/// The aligned, padded luma plane fits in memory; the chroma planes are no
/// larger.
pub open spec fn allocation_fits(width: nat, height: nat, luma_padding: nat, sample_bytes: nat) -> bool {
    &&& width + 7 <= usize::MAX
    &&& height + 7 <= usize::MAX
    &&& align_up(width, 3) + 2 * luma_padding <= isize::MAX
    &&& align_up(height, 3) + 2 * luma_padding <= isize::MAX
    &&& padded_bytes(align_up(width, 3), align_up(height, 3), luma_padding, luma_padding, sample_bytes)
        <= isize::MAX
}

/// The byte length that a caller-supplied buffer for plane `index` must have:
/// the unaligned size for luma, its chroma dimensions for planes 1 and 2.
pub open spec fn zerocopy_len(
    index: int,
    width: nat,
    height: nat,
    chroma_sampling: ChromaSampling,
    sample_bytes: nat,
) -> nat {
    if index == 0 {
        width * height * sample_bytes
    } else {
        let (cw, ch) = chroma_sampling.chroma_dimensions(width, height);
        cw * ch * sample_bytes
    }
}

/// Whether the buffer for plane `index` has to be checked: chroma buffers are
/// ignored for monochrome.
pub open spec fn zerocopy_checked(index: int, chroma_sampling: ChromaSampling) -> bool {
    index == 0 || chroma_sampling != ChromaSampling::Cs400
}

/// A caller-supplied buffer whose length differs from the frame geometry.
#[derive(Clone, Copy, Debug, PartialEq, Eq, Structural)]
pub struct BufferMismatch {
    /// The plane: 0 for luma, 1 and 2 for chroma.
    pub plane: usize,
    /// The length the geometry asks for, `None` where it exceeds `usize::MAX`.
    pub expected: Option<usize>,
    /// The buffer's length.
    pub actual: usize,
}

/// One video frame. Plane 0 is luma; planes 1 and 2 are chroma and always
/// share one geometry.
#[derive(Debug)]
pub struct Frame<T: Pixel> {
    /// Planes constituting the frame.
    pub planes: [Plane<T>; 3],
}

impl<T: Pixel> Frame<T> {
    /// Every plane's storage matches its geometry.
    pub open spec fn wf(&self) -> bool {
        &&& self.planes[0].wf()
        &&& self.planes[1].wf()
        &&& self.planes[2].wf()
    }

    /// The caller-supplied buffers match the geometry wherever they are checked.
    pub open spec fn zerocopy_accepts(
        data: [Vec<u8>; 3],
        width: nat,
        height: nat,
        chroma_sampling: ChromaSampling,
    ) -> bool {
        forall|i: int|
            0 <= i < 3 && zerocopy_checked(i, chroma_sampling) ==> #[trigger] data[i]@.len()
                == zerocopy_len(i, width, height, chroma_sampling, size_of::<T>())
    }
}

/// A chroma plane is never larger than the luma plane it derives from, so it
/// fits wherever luma does.
proof fn lemma_chroma_fits(
    width: nat,
    height: nat,
    chroma_sampling: ChromaSampling,
    luma_padding: usize,
    sample_bytes: nat,
)
    requires
        allocation_fits(width, height, luma_padding as nat, sample_bytes),
    ensures
        ({
            let c = chroma_shape(width, height, chroma_sampling, luma_padding);
            &&& c.width + 2 * c.xpad <= isize::MAX
            &&& c.height + 2 * c.ypad <= isize::MAX
            &&& padded_bytes(c.width, c.height, c.xpad, c.ypad, sample_bytes) <= isize::MAX
        }),
{
    let c = chroma_shape(width, height, chroma_sampling, luma_padding);
    let l = luma_shape(width, height, luma_padding);
    let (dx, dy) = chroma_sampling.decimation_or_zero();
    reveal_with_fuel(decimate, 2);
    lemma2_to64();
    lemma_usize_shr_is_div(luma_padding, dx);
    lemma_usize_shr_is_div(luma_padding, dy);
    assert(c.width <= l.width && c.height <= l.height);
    assert(c.xpad <= l.xpad && c.ypad <= l.ypad);
    let a = c.width + 2 * c.xpad;
    let b = c.height + 2 * c.ypad;
    let la = l.width + 2 * l.xpad;
    let lb = l.height + 2 * l.ypad;
    assert(a * b * sample_bytes <= la * lb * sample_bytes) by (nonlinear_arith)
        requires
            0 <= a <= la,
            0 <= b <= lb,
            0 <= sample_bytes,
    ;
}

impl<T: Pixel> Frame<T> {
    /// Creates a new frame with the given parameters.
    ///
    /// Allocates data for the planes. The luma plane is the requested size
    /// aligned up to blocks of 8, padded by `luma_padding` on every side; the
    /// chroma planes follow from it by the sampling format.
    pub fn new_with_padding(
        width: usize,
        height: usize,
        chroma_sampling: ChromaSampling,
        luma_padding: usize,
    ) -> (r: Self)
        requires
            allocation_fits(width as nat, height as nat, luma_padding as nat, size_of::<T>()),
        ensures
            r.wf(),
            r.planes[0].shape() == luma_shape(width as nat, height as nat, luma_padding),
            r.planes[1].shape() == chroma_shape(width as nat, height as nat, chroma_sampling, luma_padding),
            r.planes[2].shape() == chroma_shape(width as nat, height as nat, chroma_sampling, luma_padding),
    {
        proof {
            lemma2_to64();
            lemma_chroma_fits(width as nat, height as nat, chroma_sampling, luma_padding, size_of::<T>());
        }
        let luma_width = align_power_of_two(width, 3);
        let luma_height = align_power_of_two(height, 3);

        let (chroma_decimation_x, chroma_decimation_y) = match chroma_sampling.get_decimation() {
            Some(d) => d,
            None => (0, 0),
        };
        let (chroma_width, chroma_height) = chroma_sampling.get_chroma_dimensions(luma_width, luma_height);
        let chroma_padding_x = luma_padding >> chroma_decimation_x;
        let chroma_padding_y = luma_padding >> chroma_decimation_y;

        Frame {
            planes: [
                Plane::new(luma_width, luma_height, 0, 0, luma_padding, luma_padding),
                Plane::new(
                    chroma_width,
                    chroma_height,
                    chroma_decimation_x,
                    chroma_decimation_y,
                    chroma_padding_x,
                    chroma_padding_y,
                ),
                Plane::new(
                    chroma_width,
                    chroma_height,
                    chroma_decimation_x,
                    chroma_decimation_y,
                    chroma_padding_x,
                    chroma_padding_y,
                ),
            ],
        }
    }

    /// The length that the buffer for plane `index` must have, `None` where
    /// it exceeds `usize::MAX`.
    fn expected_zerocopy_len(index: usize, width: usize, height: usize, chroma_sampling: ChromaSampling) -> (r: Option<usize>)
        requires
            index < 3,
        ensures
            match r {
                Some(n) => n as nat == zerocopy_len(index as int, width as nat, height as nat, chroma_sampling, size_of::<T>()),
                None => zerocopy_len(index as int, width as nat, height as nat, chroma_sampling, size_of::<T>()) > usize::MAX,
            },
    {
        let (w, h) = if index == 0 {
            (width, height)
        } else {
            chroma_sampling.get_chroma_dimensions(width, height)
        };
        let sample_bytes = core::mem::size_of::<T>();
        match w.checked_mul(h) {
            Some(area) => {
                let r = area.checked_mul(sample_bytes);
                proof {
                    if w * h * sample_bytes > usize::MAX {
                        assert(r is None);
                    }
                }
                r
            },
            None => {
                if sample_bytes == 0 {
                    proof {
                        assert(w * h * sample_bytes == 0) by (nonlinear_arith)
                            requires sample_bytes == 0;
                    }
                    Some(0)
                } else {
                    proof {
                        assert(w * h <= w * h * sample_bytes) by (nonlinear_arith)
                            requires sample_bytes >= 1, w >= 0, h >= 0;
                    }
                    None
                }
            },
        }
    }

    /// Checks caller-supplied buffers against the geometry that `width`,
    /// `height` and `chroma_sampling` give: `None` where they match, else the
    /// first plane whose buffer has the wrong length, with the expected and
    /// actual lengths. Chroma buffers are not checked for monochrome.
    pub fn zerocopy_mismatch(
        data: &[Vec<u8>; 3],
        width: usize,
        height: usize,
        chroma_sampling: ChromaSampling,
    ) -> (r: Option<BufferMismatch>)
        ensures
            r is None <==> Self::zerocopy_accepts(*data, width as nat, height as nat, chroma_sampling),
            r matches Some(m) ==> {
                &&& m.plane < 3
                &&& zerocopy_checked(m.plane as int, chroma_sampling)
                &&& m.actual == data[m.plane as int]@.len()
                &&& m.actual != zerocopy_len(m.plane as int, width as nat, height as nat, chroma_sampling, size_of::<T>())
                &&& match m.expected {
                    Some(n) => n == zerocopy_len(m.plane as int, width as nat, height as nat, chroma_sampling, size_of::<T>()),
                    None => zerocopy_len(m.plane as int, width as nat, height as nat, chroma_sampling, size_of::<T>()) > usize::MAX,
                }
                &&& forall|i: int| 0 <= i < m.plane && zerocopy_checked(i, chroma_sampling) ==>
                    #[trigger] data[i]@.len() == zerocopy_len(i, width as nat, height as nat, chroma_sampling, size_of::<T>())
            },
    {
        let planes: usize = if chroma_sampling == ChromaSampling::Cs400 { 1 } else { 3 };
        let mut i: usize = 0;
        while i < planes
            invariant
                i <= planes <= 3,
                planes == 1 <==> chroma_sampling == ChromaSampling::Cs400,
                forall|j: int| 0 <= j < i ==>
                    #[trigger] data[j]@.len() == zerocopy_len(j, width as nat, height as nat, chroma_sampling, size_of::<T>()),
            decreases planes - i,
        {
            let actual = data[i].len();
            let expected = Self::expected_zerocopy_len(i, width, height, chroma_sampling);
            let matches = match expected {
                Some(n) => n == actual,
                None => false,
            };
            if !matches {
                return Some(BufferMismatch { plane: i, expected, actual });
            }
            i = i + 1;
        }
        None
    }

    /// Creates a new frame with the given parameters from existing data,
    /// without copying: each buffer is moved into its plane as storage.
    ///
    /// The luma buffer must hold `width * height` samples; unless the format
    /// is monochrome, each chroma buffer must hold the chroma dimensions of
    /// `width` by `height` in samples (no alignment is applied). For
    /// monochrome the chroma buffers are ignored and the chroma planes are
    /// empty. `zerocopy_mismatch` reports which buffer breaks this.
    pub fn new_zerocopy(
        data: [Vec<u8>; 3],
        width: usize,
        height: usize,
        chroma_sampling: ChromaSampling,
    ) -> (r: Self)
        requires
            Self::zerocopy_accepts(data, width as nat, height as nat, chroma_sampling),
        ensures
            r.wf(),
            r.planes[0].shape() == (PlaneShape { width: width as nat, height: height as nat, xdec: 0, ydec: 0, xpad: 0, ypad: 0 }),
            r.planes[0].bytes_view() == data[0]@,
            chroma_sampling == ChromaSampling::Cs400 ==> {
                &&& r.planes[1].shape() == (PlaneShape { width: 0, height: 0, xdec: 0, ydec: 0, xpad: 0, ypad: 0 })
                &&& r.planes[2].shape() == (PlaneShape { width: 0, height: 0, xdec: 0, ydec: 0, xpad: 0, ypad: 0 })
            },
            chroma_sampling != ChromaSampling::Cs400 ==> {
                let (cw, ch) = chroma_sampling.chroma_dimensions(width as nat, height as nat);
                &&& r.planes[1].shape() == (PlaneShape { width: cw, height: ch, xdec: 0, ydec: 0, xpad: 0, ypad: 0 })
                &&& r.planes[2].shape() == (PlaneShape { width: cw, height: ch, xdec: 0, ydec: 0, xpad: 0, ypad: 0 })
                &&& r.planes[1].bytes_view() == data[1]@
                &&& r.planes[2].bytes_view() == data[2]@
            },
    {
        let luma_width = width;
        let luma_height = height;
        proof {
            assert(data[0]@.len() == zerocopy_len(0, width as nat, height as nat, chroma_sampling, size_of::<T>()));
        }
        let ghost old_data = data;
        let mut data = data;
        let mut luma: Vec<u8> = Vec::new();
        let mut cb: Vec<u8> = Vec::new();
        let mut cr: Vec<u8> = Vec::new();
        core::mem::swap(&mut luma, &mut data[0]);
        core::mem::swap(&mut cb, &mut data[1]);
        core::mem::swap(&mut cr, &mut data[2]);
        if chroma_sampling == ChromaSampling::Cs400 {
            proof {
                let sample_bytes = size_of::<T>();
                assert(padded_bytes(0, 0, 0, 0, sample_bytes) == 0) by (nonlinear_arith);
            }
            Frame {
                planes: [
                    Plane::from_slice_zerocopy(luma, luma_width, luma_height),
                    Plane::new(0, 0, 0, 0, 0, 0),
                    Plane::new(0, 0, 0, 0, 0, 0),
                ],
            }
        } else {
            let (chroma_width, chroma_height) = chroma_sampling.get_chroma_dimensions(luma_width, luma_height);
            proof {
                assert(old_data[1]@.len() == zerocopy_len(1, width as nat, height as nat, chroma_sampling, size_of::<T>()));
                assert(old_data[2]@.len() == zerocopy_len(2, width as nat, height as nat, chroma_sampling, size_of::<T>()));
            }
            Frame {
                planes: [
                    Plane::from_slice_zerocopy(luma, luma_width, luma_height),
                    Plane::from_slice_zerocopy(cb, chroma_width, chroma_height),
                    Plane::from_slice_zerocopy(cr, chroma_width, chroma_height),
                ],
            }
        }
    }
}

/// The luma plane's width and height are each the smallest multiple of 8 that
/// is at least the requested value.
pub proof fn lemma_luma_block_aligned(width: nat, height: nat, luma_padding: usize)
    ensures
        ({
            let l = luma_shape(width, height, luma_padding);
            &&& l.width % 8 == 0 && width <= l.width < width + 8
            &&& l.height % 8 == 0 && height <= l.height < height + 8
        }),
{
    lemma2_to64();
    lemma_align_up(width, 3);
    lemma_align_up(height, 3);
}

/// Under 4:4:4 the chroma planes have exactly the luma plane's dimensions.
pub proof fn lemma_444_chroma_is_luma_size(width: nat, height: nat, luma_padding: usize)
    ensures
        chroma_shape(width, height, ChromaSampling::Cs444, luma_padding).width
            == luma_shape(width, height, luma_padding).width,
        chroma_shape(width, height, ChromaSampling::Cs444, luma_padding).height
            == luma_shape(width, height, luma_padding).height,
{
    reveal_with_fuel(decimate, 1);
}

/// Under 4:2:0 each chroma dimension is the aligned luma dimension halved,
/// rounded up.
pub proof fn lemma_420_chroma_halves_luma(width: nat, height: nat, luma_padding: usize)
    ensures
        chroma_shape(width, height, ChromaSampling::Cs420, luma_padding).width
            == (luma_shape(width, height, luma_padding).width + 1) / 2,
        chroma_shape(width, height, ChromaSampling::Cs420, luma_padding).height
            == (luma_shape(width, height, luma_padding).height + 1) / 2,
{
    reveal_with_fuel(decimate, 2);
}

/// Under monochrome both chroma planes are empty whatever the requested size.
/// Their decimation is taken as 0, so their padding is the luma padding
/// unshifted: it is zero exactly when the luma padding is zero.
pub proof fn lemma_400_chroma_empty(width: nat, height: nat, luma_padding: usize)
    ensures
        ({
            let c = chroma_shape(width, height, ChromaSampling::Cs400, luma_padding);
            &&& c.width == 0 && c.height == 0
            &&& c.xdec == 0 && c.ydec == 0
            &&& c.xpad == luma_padding && c.ypad == luma_padding
            &&& (c.xpad == 0 && c.ypad == 0) <==> luma_padding == 0
        }),
{
    lemma_usize_shr_is_div(luma_padding, 0);
    lemma2_to64();
}

/// Chroma padding on each axis is the luma padding shifted right by that
/// axis's decimation exponent.
pub proof fn lemma_chroma_padding_follows_decimation(
    width: nat,
    height: nat,
    chroma_sampling: ChromaSampling,
    luma_padding: usize,
)
    ensures
        ({
            let c = chroma_shape(width, height, chroma_sampling, luma_padding);
            &&& c.xpad == luma_padding >> (c.xdec as usize)
            &&& c.ypad == luma_padding >> (c.ydec as usize)
        }),
{
}

/// A luma buffer one byte shorter than `width * height` samples is never
/// accepted by the zero-copy constructor, whatever the format.
pub proof fn lemma_zerocopy_rejects_short_luma<T: Pixel>(
    data: [Vec<u8>; 3],
    width: nat,
    height: nat,
    chroma_sampling: ChromaSampling,
)
    requires
        data[0]@.len() + 1 == width * height * size_of::<T>(),
    ensures
        !Frame::<T>::zerocopy_accepts(data, width, height, chroma_sampling),
{
    assert(zerocopy_checked(0, chroma_sampling));
}

/// Under monochrome the zero-copy constructor accepts any chroma buffers,
/// empty or of any other length, once the luma buffer has the exact size.
pub proof fn lemma_zerocopy_400_ignores_chroma<T: Pixel>(data: [Vec<u8>; 3], width: nat, height: nat)
    requires
        data[0]@.len() == width * height * size_of::<T>(),
    ensures
        Frame::<T>::zerocopy_accepts(data, width, height, ChromaSampling::Cs400),
{
}

} // verus!
