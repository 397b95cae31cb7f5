use scene_core::life::{greet, Cell, Universe, UniverseConfig};

fn alpha_bytes(u: &Universe) -> Vec<u8> {
    u.to_image_data().iter().skip(3).step_by(4).copied().collect()
}

#[test]
fn initial_pattern() {
    let conf = UniverseConfig::new(2, 3, 3);
    let u = Universe::new(3, 3, conf);
    // every third and every seventh index starts alive
    let expected: Vec<u8> = (0u32..9)
        .map(|i| if i % 3 == 0 || i % 7 == 0 { 255 } else { 0 })
        .collect();
    assert_eq!(alpha_bytes(&u), expected);
}

#[test]
fn image_data_shape() {
    let conf = UniverseConfig::new(2, 3, 3);
    let u = Universe::new(4, 2, conf);
    let img = u.to_image_data();
    assert_eq!(img.len(), 4 * 8);
    for c in 0..8 {
        assert_eq!(img[4 * c], 0);
        assert_eq!(img[4 * c + 1], 0);
        assert_eq!(img[4 * c + 2], 0);
    }
}

#[test]
fn update_keeps_stable_pattern() {
    // On a 3x3 torus every cell neighbors every other cell, so a live cell
    // sees the three other live cells and survives with bounds [2, 3], while
    // a dead cell sees four live ones and cannot revive at exactly 3.
    let conf = UniverseConfig::new(2, 3, 3);
    let mut u = Universe::new(3, 3, conf);
    let before = alpha_bytes(&u);
    u.update();
    assert_eq!(alpha_bytes(&u), before);
}

#[test]
fn update_overcrowded_single_cell_dies() {
    // A 1x1 torus walks onto its own cell five times, so the lone live cell
    // is over the upper bound and dies.
    let conf = UniverseConfig::new(2, 3, 3);
    let mut u = Universe::new(1, 1, conf);
    assert_eq!(alpha_bytes(&u), vec![255]);
    u.update();
    assert_eq!(alpha_bytes(&u), vec![0]);
}

#[test]
fn update_revives_at_exact_count() {
    // Same 1x1 torus: a dead cell sees zero live neighbors, and a
    // configuration that revives at zero brings it back.
    let conf = UniverseConfig::new(2, 3, 0);
    let mut u = Universe::new(1, 1, conf);
    u.update(); // five self-neighbors: the live cell dies
    assert_eq!(alpha_bytes(&u), vec![0]);
    u.update(); // zero live neighbors now matches the revive count
    assert_eq!(alpha_bytes(&u), vec![255]);
}

#[test]
fn render_rows_and_glyphs() {
    let conf = UniverseConfig::new(2, 3, 3);
    let u = Universe::new(2, 2, conf);
    // indices 0 and 3 start alive
    assert_eq!(u.render(), "◼◻\n◻◼\n");
}

#[test]
fn cell_equality() {
    assert_eq!(Cell::Alive, Cell::Alive);
    assert_ne!(Cell::Alive, Cell::Dead);
}

#[test]
fn greet_renders_ten_rows() {
    let s = greet();
    assert_eq!(s.chars().count(), 110);
    let lines: Vec<&str> = s.lines().collect();
    assert_eq!(lines.len(), 10);
    assert_eq!(lines[0].chars().next().unwrap(), '◼');
}
