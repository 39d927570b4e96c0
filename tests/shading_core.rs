use planet_shaders::{hue_for_band, lattice_hash, triangles, PlanetType, RainbowHue, RenderType};

#[test]
fn render_type_codes() {
    assert_eq!(RenderType::from_code(0), RenderType::Standard);
    assert_eq!(RenderType::from_code(1), RenderType::Ring);
    assert_eq!(RenderType::from_code(2), RenderType::Moon);
}

#[test]
fn render_type_unknown_code_is_standard() {
    assert_eq!(RenderType::from_code(3), RenderType::Standard);
    assert_eq!(RenderType::from_code(-1), RenderType::Standard);
    assert_eq!(RenderType::from_code(i32::MAX), RenderType::Standard);
}

#[test]
fn planet_type_codes() {
    assert_eq!(PlanetType::from_code(0), PlanetType::Rocky);
    assert_eq!(PlanetType::from_code(1), PlanetType::GasGiant);
    assert_eq!(PlanetType::from_code(2), PlanetType::Rainbow);
    assert_eq!(PlanetType::from_code(3), PlanetType::Glitter);
    assert_eq!(PlanetType::from_code(4), PlanetType::Heart);
}

#[test]
fn planet_type_out_of_range_is_rocky() {
    assert_eq!(PlanetType::from_code(5), PlanetType::Rocky);
    assert_eq!(PlanetType::from_code(-7), PlanetType::Rocky);
    assert_eq!(PlanetType::from_code(i32::MIN), PlanetType::Rocky);
}

#[test]
fn rainbow_hues_in_order() {
    assert_eq!(hue_for_band(0), RainbowHue::Red);
    assert_eq!(hue_for_band(1), RainbowHue::Orange);
    assert_eq!(hue_for_band(2), RainbowHue::Yellow);
    assert_eq!(hue_for_band(3), RainbowHue::Green);
    assert_eq!(hue_for_band(4), RainbowHue::Blue);
}

#[test]
fn rainbow_band_five_is_indigo() {
    let band: f32 = 5.5;
    assert_eq!(hue_for_band(band as i32), RainbowHue::Indigo);
}

#[test]
fn rainbow_band_six_falls_to_violet() {
    let band: f32 = 6.0;
    assert_eq!(hue_for_band(band as i32), RainbowHue::Violet);
    assert_eq!(hue_for_band(7), RainbowHue::Violet);
    assert_eq!(hue_for_band(-1), RainbowHue::Violet);
}

#[test]
fn lattice_hash_small_values() {
    assert_eq!(lattice_hash(0, 0, 0), 0);
    assert_eq!(lattice_hash(1, 0, 0), 1);
    assert_eq!(lattice_hash(0, 1, 0), 57);
    assert_eq!(lattice_hash(0, 0, 1), 113);
    assert_eq!(lattice_hash(2, 3, 4), 2 + 171 + 452);
    assert_eq!(lattice_hash(-1, -1, -1), -171);
}

#[test]
fn lattice_hash_wraps_around() {
    assert_eq!(lattice_hash(i32::MAX, 0, 0), i32::MAX);
    assert_eq!(lattice_hash(i32::MAX, 0, 1), i32::MIN + 112);
    let expected = (i32::MAX as i64 * 57 + i32::MIN as i64 * 113) as i32;
    assert_eq!(lattice_hash(0, i32::MAX, i32::MIN), expected);
}

#[test]
fn lattice_hash_is_deterministic() {
    assert_eq!(lattice_hash(12, -34, 56), lattice_hash(12, -34, 56));
}

#[test]
fn triangles_groups_in_order() {
    let v: Vec<u32> = vec![10, 11, 12, 20, 21, 22];
    assert_eq!(triangles(&v), vec![(10, 11, 12), (20, 21, 22)]);
}

#[test]
fn triangles_drop_trailing_vertices() {
    let v: Vec<u32> = vec![1, 2, 3, 4, 5];
    assert_eq!(triangles(&v), vec![(1, 2, 3)]);
    let w: Vec<u32> = vec![1, 2, 3, 4, 5, 6, 7];
    assert_eq!(triangles(&w), vec![(1, 2, 3), (4, 5, 6)]);
}

#[test]
fn triangles_of_short_lists_are_empty() {
    let empty: Vec<u32> = Vec::new();
    assert!(triangles(&empty).is_empty());
    assert!(triangles(&vec![1u32]).is_empty());
    assert!(triangles(&vec![1u32, 2]).is_empty());
}

#[test]
fn triangles_carry_float_vertices() {
    let v: Vec<(f32, f32, f32)> = vec![(0.0, 0.0, 0.0), (1.0, 0.0, 0.0), (0.0, 1.0, 0.0)];
    let t = triangles(&v);
    assert_eq!(t.len(), 1);
    assert_eq!(t[0].1, (1.0, 0.0, 0.0));
}
