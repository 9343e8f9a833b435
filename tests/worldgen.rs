use noise::{Fbm, MultiFractal, NoiseFn, OpenSimplex};
use worldgen::binary64::Binary64;
use worldgen::biome::{classify, Biome};
use worldgen::falloff::{
    circle_falloff, circle_gradient_erode, square_falloff, square_gradient_erode, ErosionPolicy,
    Falloff,
};
use worldgen::gen::{Gen, GenError};
use worldgen::raster::{assemble, color_grid, render};

fn d(v: f64) -> Binary64 {
    Binary64::from_bits(v.to_bits())
}

fn amount(f: Falloff) -> f64 {
    match f {
        Falloff::Linear { num, den } => num as f64 / den as f64,
        Falloff::Radial { dist_sq, den } => (dist_sq as f64).sqrt() / den as f64,
    }
}

/// Samples the fractal noise over the configured domain and subtracts the
/// square falloff, cell by cell, row-major.
fn eroded_heights(g: &Gen) -> Vec<Binary64> {
    let noise = Fbm::<OpenSimplex>::new(g.seed)
        .set_octaves(g.octaves)
        .set_frequency(f64::from_bits(g.frequency.bits))
        .set_lacunarity(f64::from_bits(g.lacunarity.bits))
        .set_persistence(f64::from_bits(g.persistence.bits));
    let x0 = f64::from_bits(g.x_bounds.0.bits);
    let x1 = f64::from_bits(g.x_bounds.1.bits);
    let y0 = f64::from_bits(g.y_bounds.0.bits);
    let y1 = f64::from_bits(g.y_bounds.1.bits);
    let x_step = (x1 - x0) / g.width as f64;
    let y_step = (y1 - y0) / g.height as f64;
    let falloff = g.falloff_grid().unwrap();
    let w = g.width as usize;
    (0..w * g.height as usize)
        .map(|idx| {
            let x = idx % w;
            let y = idx / w;
            let v = noise.get([x0 + x_step * x as f64, y0 + y_step * y as f64]);
            d(v - amount(falloff[idx]))
        })
        .collect()
}

fn small_gen() -> Gen {
    let mut g = Gen::new();
    g.width = 4;
    g.height = 4;
    g.set_octaves(1);
    g.set_seed(0);
    g.x_bounds = (d(0.0), d(1.0));
    g.y_bounds = (d(0.0), d(1.0));
    g
}

#[test]
fn height_exactly_at_snow_line_is_high_rock() {
    assert_eq!(classify(d(0.7)), Biome::HighRock);
}

#[test]
fn ladder_boundaries_follow_first_match() {
    assert_eq!(classify(d(0.700_000_1)), Biome::Snow);
    assert_eq!(classify(d(0.6)), Biome::Rock);
    assert_eq!(classify(d(0.600_000_1)), Biome::HighRock);
    assert_eq!(classify(d(0.5)), Biome::Forest);
    assert_eq!(classify(d(0.25)), Biome::Grassland);
    assert_eq!(classify(d(0.0)), Biome::Shore);
    assert_eq!(classify(d(-0.0)), Biome::Shore);
    assert_eq!(classify(d(-0.05)), Biome::ShallowWater);
    assert_eq!(classify(d(-0.049_999)), Biome::Shore);
    assert_eq!(classify(d(-0.15)), Biome::ShallowWater);
    assert_eq!(classify(d(-0.150_000_1)), Biome::DeepWater);
    assert_eq!(classify(d(5e-324)), Biome::Grassland);
    assert_eq!(classify(d(1e300)), Biome::Snow);
    assert_eq!(classify(d(-1e300)), Biome::DeepWater);
}

#[test]
fn non_finite_heights_are_deep_water() {
    assert_eq!(classify(d(f64::NAN)), Biome::DeepWater);
    assert_eq!(classify(d(f64::INFINITY)), Biome::DeepWater);
    assert_eq!(classify(d(f64::NEG_INFINITY)), Biome::DeepWater);
}

#[test]
fn biome_colors() {
    assert_eq!(Biome::Snow.color(), [255, 255, 255]);
    assert_eq!(Biome::HighRock.color(), [169, 169, 169]);
    assert_eq!(Biome::Rock.color(), [127, 131, 134]);
    assert_eq!(Biome::Forest.color(), [34, 139, 34]);
    assert_eq!(Biome::Grassland.color(), [98, 125, 75]);
    assert_eq!(Biome::Shore.color(), [194, 178, 128]);
    assert_eq!(Biome::ShallowWater.color(), [173, 216, 230]);
    assert_eq!(Biome::DeepWater.color(), [0, 0, 128]);
}

#[test]
fn binary64_comparisons_follow_values() {
    assert!(d(1.5).greater_than(&d(-2.0)));
    assert!(!d(-2.0).greater_than(&d(1.5)));
    assert!(d(-3.0).greater_than(&d(-4.0)));
    assert!(!d(0.0).greater_than(&d(-0.0)));
    assert!(d(0.0).at_least(&d(-0.0)));
    assert!(d(2.0).at_least(&d(2.0)));
    assert!(!d(1.0).at_least(&d(1.000_000_1)));
    assert!(d(1e-310).greater_than(&d(0.0)));
    assert!(d(1.0).is_finite());
    assert!(!d(f64::NAN).is_finite());
    assert!(!d(f64::INFINITY).is_finite());
    assert_eq!(d(0.25).to_bits(), 0x3fd0_0000_0000_0000);
}

#[test]
fn square_falloff_plateau_and_edges() {
    assert_eq!(square_falloff(2, 2, 4, 4), Falloff::Linear { num: 0, den: 4 });
    assert_eq!(square_falloff(1, 3, 4, 4), Falloff::Linear { num: 0, den: 4 });
    assert_eq!(square_falloff(0, 0, 4, 4), Falloff::Linear { num: 4, den: 4 });
    assert_eq!(square_falloff(3, 0, 4, 4), Falloff::Linear { num: 4, den: 4 });
    assert_eq!(square_falloff(0, 3, 4, 4), Falloff::Linear { num: 4, den: 4 });
    assert_eq!(square_falloff(3, 3, 4, 4), Falloff::Linear { num: 0, den: 4 });
    assert_eq!(square_falloff(9, 5, 10, 10), Falloff::Linear { num: 6, den: 10 });
    assert_eq!(amount(square_falloff(0, 5, 10, 10)), 1.0);
    assert_eq!(square_falloff(1, 1, 8, 2), Falloff::Linear { num: 4, den: 8 });
}

#[test]
fn square_falloff_mirrors_through_centre() {
    for x in 1..10u32 {
        for y in 1..6u32 {
            assert_eq!(square_falloff(x, y, 10, 6), square_falloff(10 - x, 6 - y, 10, 6));
        }
    }
}

#[test]
fn circle_falloff_distances() {
    assert_eq!(circle_falloff(0, 0, 4, 4), Falloff::Radial { dist_sq: 2, den: 4 });
    assert_eq!(circle_falloff(1, 1, 4, 4), Falloff::Radial { dist_sq: 0, den: 4 });
    assert_eq!(circle_falloff(3, 0, 4, 4), Falloff::Radial { dist_sq: 5, den: 4 });
    assert_eq!(circle_falloff(0, 0, 1, 1), Falloff::Radial { dist_sq: 2, den: 1 });
    assert_eq!(amount(circle_falloff(4, 0, 5, 2)), 1.5);
    assert_eq!(amount(circle_falloff(0, 1, 5, 2)), 2.0_f64.sqrt() / 2.0);
}

#[test]
fn falloff_grids_are_row_major() {
    let sq = square_gradient_erode(3, 2);
    assert_eq!(sq.len(), 6);
    for idx in 0..6u32 {
        assert_eq!(sq[idx as usize], square_falloff(idx % 3, idx / 3, 3, 2));
    }
    let circ = circle_gradient_erode(2, 3);
    assert_eq!(circ.len(), 6);
    for idx in 0..6u32 {
        assert_eq!(circ[idx as usize], circle_falloff(idx % 2, idx / 2, 2, 3));
    }
    assert_eq!(ErosionPolicy::Circular.apply(2, 3), circ);
    assert_eq!(ErosionPolicy::Square.falloff(1, 0, 3, 2), square_falloff(1, 0, 3, 2));
    assert!(ErosionPolicy::Square.apply(0, 5).is_empty());
}

#[test]
fn raster_lays_out_three_bytes_per_cell() {
    let heights = vec![d(0.8), d(-0.2), d(0.1)];
    let colors = color_grid(&heights);
    assert_eq!(colors, vec![[255, 255, 255], [0, 0, 128], [98, 125, 75]]);
    let bytes = assemble(&colors);
    assert_eq!(bytes, vec![255, 255, 255, 0, 0, 128, 98, 125, 75]);
    assert_eq!(render(&heights), bytes);
    assert!(render(&Vec::new()).is_empty());
}

#[test]
fn defaults_and_setters() {
    let g = Gen::default();
    assert_eq!((g.width, g.height, g.octaves, g.seed), (1024, 1024, 11, 0));
    assert_eq!(f64::from_bits(g.frequency.bits), 0.3);
    assert_eq!(f64::from_bits(g.lacunarity.bits), 2.5);
    assert_eq!(f64::from_bits(g.persistence.bits), 0.6);
    assert_eq!(f64::from_bits(g.x_bounds.0.bits), -5.0);
    assert_eq!(f64::from_bits(g.y_bounds.1.bits), 10.0);
    let mut g = Gen::new();
    g.set_seed(7);
    g.set_frequency(d(0.5));
    g.set_lacunarity(d(2.0));
    g.set_persistence(d(0.25));
    g.set_octaves(3);
    assert_eq!(g.seed, 7);
    assert_eq!(f64::from_bits(g.frequency.bits), 0.5);
    assert_eq!(f64::from_bits(g.lacunarity.bits), 2.0);
    assert_eq!(f64::from_bits(g.persistence.bits), 0.25);
    assert_eq!(g.octaves, 3);
    assert_eq!(g.width, 1024);
    assert_eq!(g.validate(), Ok(()));
}

#[test]
fn invalid_configurations_are_refused() {
    let mut g = small_gen();
    g.width = 0;
    assert_eq!(g.validate(), Err(GenError::InvalidConfig));
    assert_eq!(g.raster(&Vec::new()), Err(GenError::InvalidConfig));
    let mut g = small_gen();
    g.height = 0;
    assert_eq!(g.gen(&Vec::new()), Err(GenError::InvalidConfig));
    let mut g = small_gen();
    g.set_octaves(0);
    assert_eq!(g.validate(), Err(GenError::InvalidConfig));
    let mut g = small_gen();
    g.x_bounds = (d(1.0), d(1.0));
    assert_eq!(g.validate(), Err(GenError::InvalidConfig));
    let mut g = small_gen();
    g.y_bounds = (d(2.0), d(-1.0));
    assert_eq!(g.falloff_grid(), Err(GenError::InvalidConfig));
    let mut g = small_gen();
    g.y_bounds = (d(f64::NAN), d(1.0));
    assert_eq!(g.validate(), Err(GenError::InvalidConfig));
    let mut g = small_gen();
    g.x_bounds = (d(0.0), d(f64::INFINITY));
    assert_eq!(g.validate(), Err(GenError::InvalidConfig));
}

#[test]
fn grid_of_wrong_size_is_refused() {
    let g = small_gen();
    assert_eq!(g.raster(&vec![d(0.0); 15]), Err(GenError::GridMismatch));
    assert_eq!(g.gen(&vec![d(0.0); 17]), Err(GenError::GridMismatch));
}

#[test]
fn oversized_grid_is_refused() {
    let mut g = small_gen();
    g.width = u32::MAX;
    g.height = u32::MAX;
    assert_eq!(g.falloff_grid(), Err(GenError::TooLarge));
}

#[test]
fn gen_writes_a_png_of_the_raster() {
    let g = small_gen();
    let heights = vec![d(0.3); 16];
    let raster = g.raster(&heights).unwrap();
    assert_eq!(raster.len(), 48);
    assert_eq!(&raster[0..3], &[34, 139, 34]);
    let png = g.gen(&heights).unwrap();
    assert_eq!(&png[0..8], &[137, 80, 78, 71, 13, 10, 26, 10]);
    assert_ne!(png, raster);
    assert_eq!(&png[16..24], &[0, 0, 0, 4, 0, 0, 0, 4]);
}

#[test]
fn small_grid_end_to_end_is_reproducible() {
    let first = eroded_heights(&small_gen());
    let second = eroded_heights(&small_gen());
    assert_eq!(first.len(), 16);
    let a = small_gen().raster(&first).unwrap();
    let b = small_gen().raster(&second).unwrap();
    assert_eq!(a.len(), 48);
    assert_eq!(a, b);
    assert_eq!(small_gen().gen(&first).unwrap(), small_gen().gen(&second).unwrap());
}

#[test]
fn noise_samples_are_deterministic() {
    let g = Gen::new();
    let make = || {
        Fbm::<OpenSimplex>::new(g.seed)
            .set_octaves(g.octaves)
            .set_frequency(f64::from_bits(g.frequency.bits))
    };
    for &(x, y) in &[(0.0, 0.0), (1.25, -3.5), (9.9, 4.2)] {
        assert_eq!(make().get([x, y]).to_bits(), make().get([x, y]).to_bits());
    }
}

#[test]
fn centre_cells_keep_their_height_after_erosion() {
    let g = small_gen();
    let grid = g.falloff_grid().unwrap();
    assert_eq!(grid.len(), 16);
    for (idx, f) in grid.iter().enumerate() {
        let (x, y) = (idx % 4, idx / 4);
        let plateau = (1..=3).contains(&x) && (1..=3).contains(&y);
        assert_eq!(amount(*f) == 0.0, plateau, "cell {} {}", x, y);
    }
}
