//! The generator's configuration and the pass from a sampled, eroded height
//! grid to the finished PNG image.

use crate::binary64::Binary64;
use crate::falloff::{falloff_grid_spec, ErosionPolicy, Falloff};
use crate::raster::{encode_png, png_rgb8_of, raster_of, render};
use vstd::prelude::*;

verus! {

/// Why a generation pass did not produce an image.
#[derive(Clone, Copy, Debug, PartialEq, Eq, Structural)]
pub enum GenError {
    /// Zero width, height or octaves, or a domain whose upper bound is not
    /// above its lower bound on some axis (or is not finite).
    InvalidConfig,
    /// The height grid does not hold `width * height` cells.
    GridMismatch,
    /// The byte raster (`3 * width * height`) would not fit in memory.
    TooLarge,
    /// The PNG encoder refused the image (never, for a valid configuration
    /// whose grid has `width * height` cells and whose raster fits).
    Encoding,
}

/// Parameters of one generation pass. The noise parameters and the domain
/// bounds are binary64 values held as bit patterns.
#[derive(Clone, Copy, Debug)]
pub struct Gen {
    pub height: u32,
    pub width: u32,
    pub octaves: usize,
    pub frequency: Binary64,
    pub lacunarity: Binary64,
    pub persistence: Binary64,
    pub seed: u32,
    /// `(x_min, x_max)` of the sampled domain.
    pub x_bounds: (Binary64, Binary64),
    /// `(y_min, y_max)` of the sampled domain.
    pub y_bounds: (Binary64, Binary64),
}

/// A lower and an upper bound, both finite, the upper above the lower.
pub open spec fn bounds_ok(b: (Binary64, Binary64)) -> bool {
    b.0.finite() && b.1.finite() && b.0.value() < b.1.value()
}

fn check_bounds(b: (Binary64, Binary64)) -> (r: bool)
    ensures
        r == bounds_ok(b),
{
    b.0.is_finite() && b.1.is_finite() && b.1.greater_than(&b.0)
}

impl Gen {
    pub open spec fn valid(&self) -> bool {
        &&& self.width > 0
        &&& self.height > 0
        &&& self.octaves > 0
        &&& bounds_ok(self.x_bounds)
        &&& bounds_ok(self.y_bounds)
    }

    pub open spec fn cells(&self) -> int {
        self.width as int * self.height as int
    }

    /// The raster fits: `3 * width * height` bytes are addressable.
    pub open spec fn fits(&self) -> bool {
        3 * self.cells() <= usize::MAX
    }

    /// 1024 by 1024 cells, 11 octaves, seed 0, frequency 0.3, lacunarity 2.5,
    /// persistence 0.6, domain [-5, 10] on both axes.
    pub open spec fn defaults() -> Gen {
        Gen {
            octaves: 11,
            height: 1024,
            width: 1024,
            seed: 0,
            frequency: Binary64 { bits: 0x3fd3_3333_3333_3333 },
            lacunarity: Binary64 { bits: 0x4004_0000_0000_0000 },
            persistence: Binary64 { bits: 0x3fe3_3333_3333_3333 },
            x_bounds: (Binary64 { bits: 0xc014_0000_0000_0000 }, Binary64 { bits: 0x4024_0000_0000_0000 }),
            y_bounds: (Binary64 { bits: 0xc014_0000_0000_0000 }, Binary64 { bits: 0x4024_0000_0000_0000 }),
        }
    }

    pub fn new() -> (r: Gen)
        ensures
            r == Gen::defaults(),
    {
        Gen {
            octaves: 11,
            height: 1024,
            width: 1024,
            seed: 0,
            frequency: Binary64::from_bits(0x3fd3_3333_3333_3333),
            lacunarity: Binary64::from_bits(0x4004_0000_0000_0000),
            persistence: Binary64::from_bits(0x3fe3_3333_3333_3333),
            x_bounds: (Binary64::from_bits(0xc014_0000_0000_0000), Binary64::from_bits(0x4024_0000_0000_0000)),
            y_bounds: (Binary64::from_bits(0xc014_0000_0000_0000), Binary64::from_bits(0x4024_0000_0000_0000)),
        }
    }

    pub fn set_seed(&mut self, seed: u32)
        ensures
            *final(self) == (Gen { seed, ..*old(self) }),
    {
        self.seed = seed;
    }

    pub fn set_frequency(&mut self, frequency: Binary64)
        ensures
            *final(self) == (Gen { frequency, ..*old(self) }),
    {
        self.frequency = frequency;
    }

    pub fn set_lacunarity(&mut self, lacunarity: Binary64)
        ensures
            *final(self) == (Gen { lacunarity, ..*old(self) }),
    {
        self.lacunarity = lacunarity;
    }

    pub fn set_persistence(&mut self, persistence: Binary64)
        ensures
            *final(self) == (Gen { persistence, ..*old(self) }),
    {
        self.persistence = persistence;
    }

    pub fn set_octaves(&mut self, octaves: usize)
        ensures
            *final(self) == (Gen { octaves, ..*old(self) }),
    {
        self.octaves = octaves;
    }

    /// Checks the configuration before any work is done.
    pub fn validate(&self) -> (r: Result<(), GenError>)
        ensures
            r is Ok <==> self.valid(),
            r matches Err(e) ==> e == GenError::InvalidConfig,
    {
        if self.width == 0 || self.height == 0 || self.octaves == 0 {
            return Err(GenError::InvalidConfig);
        }
        if !check_bounds(self.x_bounds) || !check_bounds(self.y_bounds) {
            return Err(GenError::InvalidConfig);
        }
        Ok(())
    }

    /// `width * height`.
    fn cell_count(&self) -> (r: u64)
        ensures
            r == self.cells(),
    {
        let w = self.width as u64;
        let h = self.height as u64;
        assert(w * h <= 0xffff_ffff * 0xffff_ffff) by (nonlinear_arith)
            requires w <= 0xffff_ffff, h <= 0xffff_ffff;
        w * h
    }

    /// Whether `3 * width * height` bytes are addressable.
    fn check_fits(&self) -> (r: bool)
        ensures
            r == self.fits(),
    {
        let cells: u64 = self.cell_count();
        match cells.checked_mul(3) {
            Some(bytes) => bytes <= usize::MAX as u64,
            None => false,
        }
    }

    /// The square falloff of every cell of this configuration's grid,
    /// row-major: what erosion subtracts from each sampled height.
    pub fn falloff_grid(&self) -> (r: Result<Vec<Falloff>, GenError>)
        ensures
            !self.valid() ==> r == Err::<Vec<Falloff>, GenError>(GenError::InvalidConfig),
            self.valid() && !self.fits() ==> r == Err::<Vec<Falloff>, GenError>(GenError::TooLarge),
            self.valid() && self.fits() ==> (r matches Ok(g) && falloff_grid_spec(
                ErosionPolicy::Square, self.width as int, self.height as int, g@)),
    {
        self.validate()?;
        if !self.check_fits() {
            return Err(GenError::TooLarge);
        }
        Ok(ErosionPolicy::Square.apply(self.width, self.height))
    }

    /// The row-major RGB8 raster of an eroded height grid (`y * width + x`).
    pub fn raster(&self, heights: &Vec<Binary64>) -> (r: Result<Vec<u8>, GenError>)
        ensures
            !self.valid() ==> r == Err::<Vec<u8>, GenError>(GenError::InvalidConfig),
            self.valid() && heights@.len() != self.cells() ==> r == Err::<Vec<u8>, GenError>(
                GenError::GridMismatch),
            self.valid() && heights@.len() == self.cells() && !self.fits() ==> r == Err::<
                Vec<u8>,
                GenError,
            >(GenError::TooLarge),
            self.valid() && heights@.len() == self.cells() && self.fits() ==> (r matches Ok(b) && b@
                == raster_of(heights@) && b@.len() == 3 * self.cells()),
    {
        self.validate()?;
        if heights.len() as u64 != self.cell_count() {
            return Err(GenError::GridMismatch);
        }
        if !self.check_fits() {
            return Err(GenError::TooLarge);
        }
        Ok(render(heights))
    }

    /// The PNG image (RGB, 8-bit) of an eroded height grid.
    pub fn gen(&self, heights: &Vec<Binary64>) -> (r: Result<Vec<u8>, GenError>)
        ensures
            !self.valid() ==> r == Err::<Vec<u8>, GenError>(GenError::InvalidConfig),
            self.valid() && heights@.len() != self.cells() ==> r == Err::<Vec<u8>, GenError>(
                GenError::GridMismatch),
            self.valid() && heights@.len() == self.cells() && !self.fits() ==> r == Err::<
                Vec<u8>,
                GenError,
            >(GenError::TooLarge),
            self.valid() && heights@.len() == self.cells() && self.fits() ==> (r matches Ok(png)
                && png@ == png_rgb8_of(self.width, self.height, raster_of(heights@))),
    {
        let pixels = self.raster(heights)?;
        match encode_png(self.width, self.height, pixels.as_slice()) {
            Ok(png) => Ok(png),
            Err(_) => Err(GenError::Encoding),
        }
    }
}

/// A generation pass is reproducible: two configurations of the same size
/// given the same height grid yield the same image byte for byte.
pub proof fn lemma_pass_reproducible(g1: Gen, g2: Gen, heights: Seq<Binary64>)
    requires
        g1.width == g2.width,
        g1.height == g2.height,
    ensures
        png_rgb8_of(g1.width, g1.height, raster_of(heights)) == png_rgb8_of(
            g2.width,
            g2.height,
            raster_of(heights),
        ),
{
}

impl Default for Gen {
    fn default() -> (r: Gen)
        ensures
            r == Gen::defaults(),
    {
        Gen::new()
    }
}

} // verus!
