//! A two-dimensional grid of samples with its geometry and its byte storage.
use vstd::prelude::*;
use vstd::layout::size_of;
use core::marker::PhantomData;
use crate::pixel::Pixel;

verus! {

/// The geometry of a plane as mathematical values.
pub struct PlaneShape {
    pub width: nat,
    pub height: nat,
    pub xdec: nat,
    pub ydec: nat,
    pub xpad: nat,
    pub ypad: nat,
}

/// The number of bytes that a plane with these dimensions, padding and
/// sample width occupies: the padding lies on both sides of each axis.
pub open spec fn padded_bytes(width: nat, height: nat, xpad: nat, ypad: nat, sample_bytes: nat) -> nat {
    (width + 2 * xpad) * (height + 2 * ypad) * sample_bytes
}

/// The layout of one plane.
#[derive(Clone, Copy, Debug, PartialEq, Eq, Structural)]
pub struct PlaneConfig {
    /// Samples in one row of storage, padding included.
    pub stride: usize,
    /// Rows of storage, padding included.
    pub alloc_height: usize,
    /// Visible width in samples.
    pub width: usize,
    /// Visible height in samples.
    pub height: usize,
    /// Horizontal decimation exponent relative to luma.
    pub xdec: usize,
    /// Vertical decimation exponent relative to luma.
    pub ydec: usize,
    /// Samples of padding left and right of the visible area.
    pub xpad: usize,
    /// Rows of padding above and below the visible area.
    pub ypad: usize,
}

impl PlaneConfig {
    pub open spec fn shape(self) -> PlaneShape {
        PlaneShape {
            width: self.width as nat,
            height: self.height as nat,
            xdec: self.xdec as nat,
            ydec: self.ydec as nat,
            xpad: self.xpad as nat,
            ypad: self.ypad as nat,
        }
    }

    /// Storage covers the visible area and the padding on both sides.
    pub open spec fn wf(self) -> bool {
        &&& self.stride == self.width + 2 * self.xpad
        &&& self.alloc_height == self.height + 2 * self.ypad
    }
}

/// One plane of samples of type `T`, kept as the bytes of its samples.
#[derive(Debug)]
pub struct Plane<T: Pixel> {
    pub cfg: PlaneConfig,
    /// The bytes of the samples, row by row.
    pub data: Vec<u8>,
    /// The sample type, which fixes the byte width of a sample.
    pub marker: PhantomData<T>,
}

impl<T: Pixel> Plane<T> {
    pub open spec fn shape(&self) -> PlaneShape {
        self.cfg.shape()
    }

    /// The bytes of the plane's storage.
    pub open spec fn bytes_view(&self) -> Seq<u8> {
        self.data@
    }

    /// The configuration is consistent and the storage holds every row.
    pub open spec fn wf(&self) -> bool {
        &&& self.cfg.wf()
        &&& self.bytes_view().len() == self.cfg.stride * self.cfg.alloc_height * size_of::<T>()
    }

    /// The plane's storage.
    pub fn data(&self) -> (r: &[u8])
        ensures
            r@ == self.bytes_view(),
    {
        self.data.as_slice()
    }

    /// Allocates a plane of `width` by `height` samples with the given
    /// decimation and with `xpad` / `ypad` samples of padding on each side.
    /// A zero width or height gives an empty plane.
    pub fn new(width: usize, height: usize, xdec: usize, ydec: usize, xpad: usize, ypad: usize) -> (r: Self)
        requires
            width + 2 * xpad <= isize::MAX,
            height + 2 * ypad <= isize::MAX,
            padded_bytes(width as nat, height as nat, xpad as nat, ypad as nat, size_of::<T>()) <= isize::MAX,
        ensures
            r.wf(),
            r.shape() == (PlaneShape {
                width: width as nat,
                height: height as nat,
                xdec: xdec as nat,
                ydec: ydec as nat,
                xpad: xpad as nat,
                ypad: ypad as nat,
            }),
    {
        let stride: usize = width + 2 * xpad;
        let alloc_height: usize = height + 2 * ypad;
        let sample_bytes: usize = core::mem::size_of::<T>();
        let rows_bytes: usize = if sample_bytes == 0 || alloc_height == 0 {
            0
        } else {
            proof {
                assert(stride * alloc_height <= stride * alloc_height * sample_bytes) by (nonlinear_arith)
                    requires sample_bytes >= 1;
            }
            stride * alloc_height
        };
        proof {
            if sample_bytes == 0 || alloc_height == 0 {
                assert(stride * alloc_height * sample_bytes == 0) by (nonlinear_arith)
                    requires sample_bytes == 0 || alloc_height == 0;
            }
        }
        let len: usize = if sample_bytes == 0 || alloc_height == 0 { 0 } else { rows_bytes * sample_bytes };
        let cfg = PlaneConfig { stride, alloc_height, width, height, xdec, ydec, xpad, ypad };
        Plane { cfg, data: vec![0u8; len], marker: PhantomData }
    }

    /// Takes over `data` as the storage of a plane of `stride` by `height`
    /// samples, without padding or decimation. The bytes are moved, not copied.
    pub fn from_slice_zerocopy(data: Vec<u8>, stride: usize, height: usize) -> (r: Self)
        requires
            data@.len() == stride * height * size_of::<T>(),
        ensures
            r.wf(),
            r.shape() == (PlaneShape {
                width: stride as nat,
                height: height as nat,
                xdec: 0,
                ydec: 0,
                xpad: 0,
                ypad: 0,
            }),
            r.bytes_view() == data@,
    {
        let cfg = PlaneConfig {
            stride,
            alloc_height: height,
            width: stride,
            height,
            xdec: 0,
            ydec: 0,
            xpad: 0,
            ypad: 0,
        };
        Plane { cfg, data, marker: PhantomData }
    }
}

} // verus!
