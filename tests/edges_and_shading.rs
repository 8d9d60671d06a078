use bevy_simpletoon::edges::{
    colour_edge_at, depth_edge_at, depth_threshold_at, is_edge_at, normal_edge_at, Normal,
};
use bevy_simpletoon::image::{step_back, step_forth, Image};
use bevy_simpletoon::settings::{Rgba, SimpletoonSettings};
use bevy_simpletoon::shading::{shade_pixel, toon_composite};

const FACING: Normal = Normal { x: 0, y: 0, z: 1000 };
const GREY: Rgba = Rgba { r: 500, g: 500, b: 500, a: 1000 };

fn filled<T: Clone>(w: usize, h: usize, v: T) -> Image<T> {
    Image::new(w, h, vec![v; w * h]).unwrap()
}

fn depth_step(w: usize, h: usize, c: usize, d: u32, delta: u32) -> Image<u32> {
    let mut texels = Vec::new();
    for _y in 0..h {
        for x in 0..w {
            texels.push(if x < c { d } else { d + delta });
        }
    }
    Image::new(w, h, texels).unwrap()
}

#[test]
fn image_new_checks_its_size() {
    assert!(Image::new(2, 2, vec![0u32; 4]).is_some());
    assert!(Image::new(2, 2, vec![0u32; 3]).is_none());
    assert!(Image::new(0, 2, Vec::<u32>::new()).is_none());
    assert!(Image::new(usize::MAX, 2, vec![0u32; 2]).is_none());
}

#[test]
fn threshold_at_default_settings() {
    let s = SimpletoonSettings::default();
    assert_eq!(depth_threshold_at(&s, 0, 1000), 1000);
    assert_eq!(depth_threshold_at(&s, 2000, 1000), 3000);
    assert_eq!(depth_threshold_at(&s, 2000, -1000), 3000);
    assert_eq!(depth_threshold_at(&s, 0, 0), 19000);
    assert_eq!(depth_threshold_at(&s, 0, 500), 4000);
    assert_eq!(depth_threshold_at(&s, 0, 700), 1000);
}

#[test]
fn threshold_does_not_overflow_at_extremes() {
    let s = SimpletoonSettings {
        depth_threshold: u32::MAX,
        depth_threshold_depth_mul: u32::MAX,
        depth_normal_threshold: 0,
        depth_normal_threshold_mul: u32::MAX,
        normal_threshold: u32::MAX,
        colour_threshold: u32::MAX,
        stroke_size: u32::MAX,
        colour_banding: u32::MAX,
        stroke_colour: GREY,
    };
    let t = depth_threshold_at(&s, u32::MAX, i32::MIN);
    assert!(t > u64::MAX as u128);
}

#[test]
fn depth_step_sweeps_across_threshold() {
    let s = SimpletoonSettings::default();
    let normal = filled(4, 3, FACING);
    for (delta, fires) in [(0u32, false), (5999, false), (6000, false), (6001, true), (20000, true)] {
        let depth = depth_step(4, 3, 2, 5000, delta);
        assert_eq!(depth_edge_at(&s, &depth, &normal, 1, 1), fires, "delta {}", delta);
    }
}

#[test]
fn grazing_normal_relaxes_depth_step() {
    let s = SimpletoonSettings::default();
    let grazing = filled(4, 3, Normal { x: 1000, y: 0, z: 0 });
    let depth = depth_step(4, 3, 2, 0, 18000);
    assert!(!depth_edge_at(&s, &depth, &grazing, 1, 1));
    let depth = depth_step(4, 3, 2, 0, 19001);
    assert!(depth_edge_at(&s, &depth, &grazing, 1, 1));
}

#[test]
fn background_depth_does_not_fire_against_background() {
    let s = SimpletoonSettings::default();
    let depth = filled(3, 3, u32::MAX);
    let normal = filled(3, 3, FACING);
    for y in 0..3 {
        for x in 0..3 {
            assert!(!depth_edge_at(&s, &depth, &normal, x, y));
        }
    }
}

#[test]
fn crease_fires_normal_test() {
    let s = SimpletoonSettings::default();
    let mut texels = vec![FACING; 3];
    texels[2] = Normal { x: 1000, y: 0, z: 0 };
    let normal = Image::new(3, 1, texels).unwrap();
    assert!(normal_edge_at(&s, &normal, 1, 0));
    let flat = filled(3, 1, FACING);
    assert!(!normal_edge_at(&s, &flat, 1, 0));
    let slight = Image::new(3, 1, vec![FACING, FACING, Normal { x: 400, y: 0, z: 1000 }]).unwrap();
    assert!(!normal_edge_at(&s, &slight, 1, 0));
}

#[test]
fn painted_boundary_fires_colour_test() {
    let s = SimpletoonSettings::default();
    let white = Rgba::new(1000, 1000, 1000, 1000);
    let black = Rgba::new(0, 0, 0, 1000);
    let colour = Image::new(3, 1, vec![white, black, white]).unwrap();
    assert!(colour_edge_at(&s, &colour, 1, 0));
    let near = Image::new(3, 1, vec![GREY, GREY, Rgba::new(700, 700, 700, 1000)]).unwrap();
    assert!(!colour_edge_at(&s, &near, 1, 0));
    let over = Image::new(3, 1, vec![GREY, GREY, Rgba::new(701, 701, 701, 1000)]).unwrap();
    assert!(colour_edge_at(&s, &over, 1, 0));
}

#[test]
fn outline_takes_the_stroke_colour() {
    let s = SimpletoonSettings::default();
    let white = Rgba::new(1000, 1000, 1000, 1000);
    let black = Rgba::new(0, 0, 0, 1000);
    let colour = Image::new(3, 1, vec![white, black, white]).unwrap();
    let depth = filled(3, 1, 100u32);
    let normal = filled(3, 1, FACING);
    assert!(is_edge_at(&s, &colour, &depth, &normal, 1, 0));
    assert_eq!(shade_pixel(&s, &colour, &depth, &normal, 1, 0), s.stroke_colour);
    let steep = depth_step(3, 1, 2, 100, 50000);
    let flat = filled(3, 1, GREY);
    assert_eq!(shade_pixel(&s, &flat, &steep, &normal, 1, 0), s.stroke_colour);
}

#[test]
fn flat_region_is_banded() {
    let s = SimpletoonSettings::default();
    let colour = filled(3, 3, GREY);
    let depth = filled(3, 3, 100u32);
    let normal = filled(3, 3, FACING);
    assert!(!is_edge_at(&s, &colour, &depth, &normal, 1, 1));
    assert_eq!(shade_pixel(&s, &colour, &depth, &normal, 1, 1), Rgba::new(400, 400, 400, 1000));
}

#[test]
fn border_samples_are_clamped() {
    assert_eq!(step_back(0, 5), 0);
    assert_eq!(step_back(7, 5), 2);
    assert_eq!(step_back(3, u32::MAX), 0);
    assert_eq!(step_forth(2, 5, 3), 2);
    assert_eq!(step_forth(0, 1, 3), 1);
    assert_eq!(step_forth(0, u32::MAX, 3), 2);
}

#[test]
fn border_texels_shade_with_huge_stroke() {
    let mut s = SimpletoonSettings::default();
    s.stroke_size = u32::MAX;
    let colour = filled(1, 1, GREY);
    let depth = filled(1, 1, 100u32);
    let normal = filled(1, 1, FACING);
    assert_eq!(shade_pixel(&s, &colour, &depth, &normal, 0, 0), Rgba::new(400, 400, 400, 1000));
    let colour = Image::new(2, 2, vec![GREY, GREY, GREY, Rgba::new(0, 0, 0, 1000)]).unwrap();
    let depth = filled(2, 2, 100u32);
    let normal = filled(2, 2, FACING);
    let out = toon_composite(&s, &colour, &depth, &normal);
    assert_eq!(out.texels.len(), 4);
    assert_eq!(out.texels[0], Rgba::new(400, 400, 400, 1000));
    assert_eq!(out.texels[1], s.stroke_colour);
    assert_eq!(out.texels[2], s.stroke_colour);
    assert_eq!(out.texels[3], s.stroke_colour);
    let again = toon_composite(&s, &colour, &depth, &normal);
    assert_eq!(out.texels, again.texels);
}

#[test]
fn composite_matches_each_texel() {
    let s = SimpletoonSettings::default();
    let colour = Image::new(
        3,
        2,
        vec![GREY, GREY, Rgba::new(700, 400, 0, 500), GREY, GREY, GREY],
    )
    .unwrap();
    let depth = depth_step(3, 2, 1, 100, 9000);
    let normal = filled(3, 2, FACING);
    let out = toon_composite(&s, &colour, &depth, &normal);
    assert_eq!((out.width, out.height), (3, 2));
    for y in 0..2 {
        for x in 0..3 {
            assert_eq!(out.texels[y * 3 + x], shade_pixel(&s, &colour, &depth, &normal, x, y));
        }
    }
    assert_eq!(out.texels[0], s.stroke_colour);
    assert_eq!(out.texels[2], Rgba::new(630, 360, 0, 500));
    assert_eq!(out.texels[5], Rgba::new(400, 400, 400, 1000));
}
