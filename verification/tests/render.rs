use gravel::color::{Color, palette};
use gravel::model::Stone;
use gravel::render::placement;

#[test]
fn palette_has_the_ten_fixed_colors() {
    let expected = [
        (221, 160, 221), // plum
        (0, 128, 128),   // teal
        (238, 130, 238), // violet
        (255, 127, 80),  // coral
        (255, 215, 0),   // gold
        (34, 139, 34),   // forest green
        (106, 90, 205),  // slate blue
        (250, 128, 114), // salmon
        (64, 224, 208),  // turquoise
        (127, 255, 212), // aquamarine
    ];
    for (i, (r, g, b)) in expected.iter().enumerate() {
        assert_eq!(palette(i as u32), Color { r: *r, g: *g, b: *b });
    }
}

#[test]
fn placement_centers_the_first_cell() {
    let s = Stone { x: 0, y: 0, x_offset: 0, y_offset: 0, rotation: 0 };
    let (px, py, rot) = placement(&s);
    // cell (0, 0) sits at (-285, 285) drawing units; the denominator of the
    // returned coordinates is 2 * OFFSET_DENOM = 40_000_000_000_000
    assert_eq!(px, -285 * 40_000_000_000_000);
    assert_eq!(py, 285 * 40_000_000_000_000);
    assert_eq!(rot, 0);
}

#[test]
fn placement_applies_offsets_and_flip() {
    let s = Stone {
        x: 1,
        y: 2,
        x_offset: 20_000_000_000_000,  // one full cell to the right
        y_offset: -20_000_000_000_000, // one full cell up in grid space
        rotation: 7,
    };
    let (px, py, rot) = placement(&s);
    assert_eq!(px, 30 * (2 + 2 - 19) * 20_000_000_000_000_i128);
    assert_eq!(py, -30 * (4 - 2 - 19) * 20_000_000_000_000_i128);
    assert_eq!(rot, 7);
}
