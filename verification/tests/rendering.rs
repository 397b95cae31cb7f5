use scene_core::inputs::InputBinding;
use scene_core::m3::{id, mult3x3, scale, translation, zero};
use scene_core::maths_utils::FP_SCALE;
use scene_core::rendering::{classify_location_name, BufferSettings, GlLocationType};
use scene_core::spin::get_color;

#[test]
fn classify_by_prefix() {
    assert_eq!(
        classify_location_name("u_transformationMatrix"),
        Some(GlLocationType::Uniform)
    );
    assert_eq!(
        classify_location_name("a_position"),
        Some(GlLocationType::Attribute)
    );
    assert_eq!(classify_location_name("color"), None);
    assert_eq!(classify_location_name("u"), None);
    assert_eq!(classify_location_name(""), None);
    assert_eq!(classify_location_name("ua_x"), None);
}

#[test]
fn buffer_settings_defaults_and_normalize() {
    let s = BufferSettings::new(3, 7);
    assert_eq!(s.dim, 3);
    assert_eq!(s.data_type, 7);
    assert!(!s.normalize);
    assert_eq!(s.stride, 0);
    assert_eq!(s.offset, 0);
    let n = s.normalize();
    assert!(n.normalize);
    assert_eq!(n.dim, 3);
}

#[test]
fn color_table_shape_and_values() {
    let c = get_color();
    assert_eq!(c.len(), 288);
    // first group: six vertices of (200, 70, 120)
    assert_eq!(&c[0..6], &[200, 70, 120, 200, 70, 120]);
    // the last group starts at byte 270: (160, 160, 220)
    assert_eq!(&c[270..273], &[160, 160, 220]);
    // one mid-table group: bottom-of-middle-rung green
    assert_eq!(&c[12 * 18..12 * 18 + 3], &[76, 210, 100]);
}

#[test]
fn matrix_helpers_exact_values() {
    let i = id();
    assert_eq!(i, vec![FP_SCALE, 0, 0, 0, FP_SCALE, 0, 0, 0, FP_SCALE]);
    assert_eq!(zero(), vec![0; 9]);
    assert_eq!(
        translation(5, 7),
        vec![FP_SCALE, 0, 0, 0, FP_SCALE, 0, 5, 7, FP_SCALE]
    );
    assert_eq!(
        scale(2 * FP_SCALE, 3 * FP_SCALE),
        vec![2 * FP_SCALE, 0, 0, 0, 3 * FP_SCALE, 0, 0, 0, FP_SCALE]
    );
}

#[test]
fn matrix_product_against_identity_and_scaling() {
    let i = id();
    let t = translation(5, 7);
    assert_eq!(mult3x3(&i, &t), t);
    assert_eq!(mult3x3(&t, &i), t);
    let s = scale(2 * FP_SCALE, 3 * FP_SCALE);
    let st = mult3x3(&s, &t);
    // scaling then translating: the translation column is scaled too
    assert_eq!(st, vec![2 * FP_SCALE, 0, 0, 0, 3 * FP_SCALE, 0, 10, 21, FP_SCALE]);
}

#[test]
fn mouse_view_coordinates() {
    let input = InputBinding {
        mouse_x: 500_000,
        mouse_y: -2_000_000,
        canvas_width: 100,
        canvas_height: 50,
    };
    assert_eq!(input.get_mouse_x(), 500_000);
    assert_eq!(input.get_mouse_y(), -2_000_000);
    // x / width - width/2, all in fixed point
    assert_eq!(input.get_mouse_view_x(), 500_000 / 100 - 100 * FP_SCALE / 2);
    assert_eq!(input.get_mouse_view_y(), -2_000_000 / 50 - 50 * FP_SCALE / 2);
}
