//! Sample types and chroma subsampling formats.
use vstd::prelude::*;

verus! {

/// A pixel sample type. Its byte width is `size_of::<Self>()`.
pub trait Pixel: Copy {
}

impl Pixel for u8 {
}

impl Pixel for u16 {
}

/// The chroma subsampling formats of a frame.
#[derive(Clone, Copy, Debug, PartialEq, Eq, Structural)]
pub enum ChromaSampling {
    /// Both chroma axes at half resolution.
    Cs420,
    /// Horizontal chroma at half resolution, vertical at full.
    Cs422,
    /// Chroma at full resolution.
    Cs444,
    /// Monochrome: no chroma planes.
    Cs400,
}

/// `d` halved `e` times, each halving rounded up, so that no sample is lost.
pub open spec fn decimate(d: nat, e: nat) -> nat
    decreases e,
{
    if e == 0 {
        d
    } else {
        decimate((d + 1) / 2, (e - 1) as nat)
    }
}

impl ChromaSampling {
    /// The (horizontal, vertical) decimation exponents, `None` for monochrome.
    pub open spec fn decimation(self) -> Option<(usize, usize)> {
        match self {
            ChromaSampling::Cs420 => Some((1, 1)),
            ChromaSampling::Cs422 => Some((1, 0)),
            ChromaSampling::Cs444 => Some((0, 0)),
            ChromaSampling::Cs400 => None,
        }
    }

    /// The decimation exponents, with (0, 0) standing in for monochrome.
    pub open spec fn decimation_or_zero(self) -> (usize, usize) {
        match self.decimation() {
            Some(d) => d,
            None => (0, 0),
        }
    }

    /// The chroma plane dimensions for the given luma dimensions.
    pub open spec fn chroma_dimensions(self, luma_width: nat, luma_height: nat) -> (nat, nat) {
        match self.decimation() {
            Some((dx, dy)) => (decimate(luma_width, dx as nat), decimate(luma_height, dy as nat)),
            None => (0, 0),
        }
    }

    /// The (horizontal, vertical) decimation exponents, `None` for monochrome.
    pub fn get_decimation(self) -> (r: Option<(usize, usize)>)
        ensures
            r == self.decimation(),
    {
        match self {
            ChromaSampling::Cs420 => Some((1, 1)),
            ChromaSampling::Cs422 => Some((1, 0)),
            ChromaSampling::Cs444 => Some((0, 0)),
            ChromaSampling::Cs400 => None,
        }
    }

    /// The chroma plane dimensions for the given luma dimensions: each luma
    /// dimension shifted right by its decimation exponent, rounded up.
    pub fn get_chroma_dimensions(self, luma_width: usize, luma_height: usize) -> (r: (usize, usize))
        ensures
            (r.0 as nat, r.1 as nat) == self.chroma_dimensions(luma_width as nat, luma_height as nat),
    {
        reveal_with_fuel(decimate, 2);
        let half_width: usize = luma_width / 2 + luma_width % 2;
        let half_height: usize = luma_height / 2 + luma_height % 2;
        match self {
            ChromaSampling::Cs420 => (half_width, half_height),
            ChromaSampling::Cs422 => (half_width, luma_height),
            ChromaSampling::Cs444 => (luma_width, luma_height),
            ChromaSampling::Cs400 => (0, 0),
        }
    }
}

} // verus!
