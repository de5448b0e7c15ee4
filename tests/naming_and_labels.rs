use cube_bore::naming::{artifact_file, artifact_name};
use cube_bore::text::{decimal_text, label_text};

#[test]
fn label_truncates_thousandths_to_width_three() {
    // 0.0035 units: 3.5 thousandths, truncated to 3.
    assert_eq!(label_text(3_500), "  3");
}

#[test]
fn label_pads_two_digits() {
    assert_eq!(label_text(42_999), " 42");
}

#[test]
fn label_of_whole_unit_bore() {
    assert_eq!(label_text(5_000_000), "5000");
}

#[test]
fn label_of_tiny_bore_is_zero() {
    assert_eq!(label_text(999), "  0");
}

#[test]
fn decimal_text_values() {
    assert_eq!(decimal_text(0), "0");
    assert_eq!(decimal_text(7), "7");
    assert_eq!(decimal_text(1234567890), "1234567890");
    assert_eq!(decimal_text(u64::MAX), "18446744073709551615");
}

#[test]
fn single_bored_part_name() {
    let name = artifact_file(0, 1, 20_000_000, 5_000_000, 50);
    assert_eq!(name, "cube-with-tube.len_side-20.000_tube_diameter-5.000_segments-50.stl");
}

#[test]
fn single_plain_cube_name() {
    let name = artifact_file(0, 1, 10_000_000, 0, 50);
    assert_eq!(name, "cube.len_side-10.000.stl");
}

#[test]
fn negative_diameter_names_plain_cube() {
    assert_eq!(artifact_name(2, 3, 10_000_000, -1_000_000, 8), "cube-2.len_side-10.000");
}

#[test]
fn swept_names_carry_index() {
    assert_eq!(
        artifact_name(2, 3, 12_500_000, 4_000_000, 3),
        "cube-with-tube-2.len_side-12.500_tube_diameter-4.000_segments-3"
    );
}

#[test]
fn lengths_round_to_thousandths() {
    // 1.2345 rounds up, 1.2344999 rounds down.
    assert_eq!(artifact_name(0, 1, 1_234_500, 0, 3), "cube.len_side-1.235");
    assert_eq!(artifact_name(0, 1, 1_234_499, 0, 3), "cube.len_side-1.234");
    assert_eq!(artifact_name(0, 1, 999_500, 0, 3), "cube.len_side-1.000");
    assert_eq!(artifact_name(0, 1, 5, 0, 3), "cube.len_side-0.000");
}

#[test]
fn names_are_deterministic() {
    let a = artifact_file(1, 4, 7_000_000, 2_500_000, 64);
    let b = artifact_file(1, 4, 7_000_000, 2_500_000, 64);
    assert_eq!(a, b);
    assert_eq!(a, "cube-with-tube-1.len_side-7.000_tube_diameter-2.500_segments-64.stl");
}
