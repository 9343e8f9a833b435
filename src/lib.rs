//! Procedural island terrain: exact models of the height values, the falloff
//! that shapes the landmass, the biome ladder and the RGB raster.

pub mod binary64;
pub mod biome;
pub mod falloff;
pub mod gen;
pub mod raster;
