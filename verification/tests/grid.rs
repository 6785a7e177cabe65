use gravel::color::Color;
use gravel::model::{Effect, GridState, Input, Stone, initialize};
use gravel::{ADJ_DEFAULT, ADJ_STEP, COLS, HALF_UNIT, QUARTER_PI, ROWS, SEED_BOUND, UNIT};

fn state_with(seed: u64, disp_adj: i64, rot_adj: i64) -> GridState {
    GridState {
        random_seed: seed,
        disp_adj,
        rot_adj,
        gravel: initialize(ROWS, COLS),
        background_color: gravel::color::palette(0),
    }
}

#[test]
fn initialize_makes_the_full_cross_product() {
    let g = initialize(20, 20);
    assert_eq!(g.len(), 400);
    for (i, s) in g.iter().enumerate() {
        assert_eq!(s.x as usize, i % 20);
        assert_eq!(s.y as usize, i / 20);
        assert_eq!(s.x_offset, 0);
        assert_eq!(s.y_offset, 0);
        assert_eq!(s.rotation, 0);
    }
    // each coordinate pair appears exactly once
    let mut seen = [[0u32; 20]; 20];
    for s in g.iter() {
        seen[s.y as usize][s.x as usize] += 1;
    }
    for row in seen.iter() {
        for count in row.iter() {
            assert_eq!(*count, 1);
        }
    }
}

#[test]
fn initialize_respects_other_dimensions() {
    let g = initialize(3, 7);
    assert_eq!(g.len(), 21);
    assert_eq!(g[20].x, 6);
    assert_eq!(g[20].y, 2);
}

#[test]
fn recompute_is_deterministic_for_a_seed() {
    let mut a = state_with(123_456, ADJ_DEFAULT, ADJ_DEFAULT);
    let mut b = state_with(123_456, ADJ_DEFAULT, ADJ_DEFAULT);
    a.recompute();
    b.recompute();
    for (sa, sb) in a.gravel.iter().zip(b.gravel.iter()) {
        assert_eq!(sa.x_offset, sb.x_offset);
        assert_eq!(sa.y_offset, sb.y_offset);
        assert_eq!(sa.rotation, sb.rotation);
    }
    // and a second recompute of the same state reproduces the same fields
    let snapshot: Vec<Stone> = a.gravel.clone();
    a.recompute();
    for (sa, sb) in a.gravel.iter().zip(snapshot.iter()) {
        assert_eq!(sa.x_offset, sb.x_offset);
        assert_eq!(sa.y_offset, sb.y_offset);
        assert_eq!(sa.rotation, sb.rotation);
    }
}

#[test]
fn different_seeds_differ_somewhere() {
    let mut a = state_with(1, ADJ_DEFAULT, ADJ_DEFAULT);
    let mut b = state_with(2, ADJ_DEFAULT, ADJ_DEFAULT);
    a.recompute();
    b.recompute();
    let same = a
        .gravel
        .iter()
        .zip(b.gravel.iter())
        .all(|(sa, sb)| sa.x_offset == sb.x_offset && sa.rotation == sb.rotation);
    assert!(!same);
}

#[test]
fn top_row_is_never_perturbed() {
    for seed in [0u64, 7, 999_999] {
        let mut g = state_with(seed, 3 * ADJ_DEFAULT, 2 * ADJ_DEFAULT);
        g.recompute();
        for s in g.gravel.iter().filter(|s| s.y == 0) {
            assert_eq!(s.x_offset, 0);
            assert_eq!(s.y_offset, 0);
            assert_eq!(s.rotation, 0);
        }
    }
}

#[test]
fn offsets_stay_within_the_row_ramp_bound() {
    let mut g = state_with(4242, ADJ_DEFAULT, ADJ_DEFAULT);
    g.recompute();
    let mut prev_bound: i64 = -1;
    for s in g.gravel.iter() {
        let offset_bound = (s.y as i64) * ADJ_DEFAULT * HALF_UNIT;
        let rotation_bound = (s.y as i64) * ADJ_DEFAULT * QUARTER_PI;
        assert!(s.x_offset.abs() <= offset_bound);
        assert!(s.y_offset.abs() <= offset_bound);
        assert!(s.rotation.abs() <= rotation_bound);
        if s.x == 0 {
            // the bound is non-decreasing row by row
            assert!(offset_bound >= prev_bound);
            prev_bound = offset_bound;
        }
    }
}

#[test]
fn scenario_seed_42_unit_adjustments() {
    let mut g = state_with(42, UNIT, UNIT);
    g.recompute();
    // the stone at (x=5, y=0) sits at index 5 and is unperturbed
    let top = &g.gravel[5];
    assert_eq!((top.x, top.y), (5, 0));
    assert_eq!((top.x_offset, top.y_offset, top.rotation), (0, 0, 0));
    // the stone at (x=5, y=19) sits at index 19 * 20 + 5 and is perturbed,
    // bounded by (19/20) * 1.0 * 0.5 and (19/20) * 1.0 * pi/4
    let bottom = &g.gravel[19 * 20 + 5];
    assert_eq!((bottom.x, bottom.y), (5, 19));
    assert_ne!(bottom.x_offset, 0);
    assert_ne!(bottom.y_offset, 0);
    assert_ne!(bottom.rotation, 0);
    assert!(bottom.x_offset.abs() <= 19 * UNIT * HALF_UNIT);
    assert!(bottom.y_offset.abs() <= 19 * UNIT * HALF_UNIT);
    assert!(bottom.rotation.abs() <= 19 * UNIT * QUARTER_PI);
}

#[test]
fn decrease_displacement_floors_at_zero() {
    let mut g = state_with(42, 50_000, ADJ_DEFAULT);
    let e = g.handle_input(Input::DecreaseDisplacement);
    assert_eq!(e, Effect::Redraw);
    assert_eq!(g.disp_adj, 0);
    for _ in 0..5 {
        g.handle_input(Input::DecreaseDisplacement);
        assert!(g.disp_adj >= 0);
        assert_eq!(g.disp_adj, 0);
    }
}

#[test]
fn adjustments_move_in_fixed_steps() {
    let mut g = state_with(42, ADJ_DEFAULT, ADJ_DEFAULT);
    g.handle_input(Input::IncreaseDisplacement);
    assert_eq!(g.disp_adj, ADJ_DEFAULT + ADJ_STEP);
    g.handle_input(Input::DecreaseDisplacement);
    assert_eq!(g.disp_adj, ADJ_DEFAULT);
    g.handle_input(Input::IncreaseRotation);
    assert_eq!(g.rot_adj, ADJ_DEFAULT + ADJ_STEP);
    g.handle_input(Input::DecreaseRotation);
    assert_eq!(g.rot_adj, ADJ_DEFAULT);
    assert_eq!(g.random_seed, 42);
}

#[test]
fn adjustments_saturate_at_the_cap() {
    let mut g = state_with(42, gravel::ADJ_MAX, gravel::ADJ_MAX);
    g.handle_input(Input::IncreaseDisplacement);
    assert_eq!(g.disp_adj, gravel::ADJ_MAX);
    g.handle_input(Input::IncreaseRotation);
    assert_eq!(g.rot_adj, gravel::ADJ_MAX);
    // the perturbation products still fit at the cap
    g.recompute();
    for s in g.gravel.iter() {
        assert!(s.x_offset.abs() <= (s.y as i64) * gravel::ADJ_MAX * HALF_UNIT);
        assert!(s.rotation.abs() <= (s.y as i64) * gravel::ADJ_MAX * QUARTER_PI);
    }
}

#[test]
fn save_mutates_nothing() {
    let mut g = state_with(42, ADJ_DEFAULT, ADJ_DEFAULT);
    g.recompute();
    let before: Vec<Stone> = g.gravel.clone();
    let e = g.handle_input(Input::Save);
    assert_eq!(e, Effect::SaveFrame);
    assert_eq!(g.random_seed, 42);
    assert_eq!(g.disp_adj, ADJ_DEFAULT);
    assert_eq!(g.rot_adj, ADJ_DEFAULT);
    for (sa, sb) in g.gravel.iter().zip(before.iter()) {
        assert_eq!(sa, sb);
    }
}

#[test]
fn reseed_stays_in_domain() {
    let mut g = state_with(42, ADJ_DEFAULT, ADJ_DEFAULT);
    for _ in 0..50 {
        let e = g.handle_input(Input::Reseed);
        assert_eq!(e, Effect::Redraw);
        assert!(g.random_seed < SEED_BOUND as u64);
        assert_eq!(g.disp_adj, ADJ_DEFAULT);
    }
}

#[test]
fn new_state_is_well_formed() {
    let g = GridState::new();
    assert_eq!(g.gravel.len(), (ROWS * COLS) as usize);
    assert_eq!(g.disp_adj, ADJ_DEFAULT);
    assert_eq!(g.rot_adj, ADJ_DEFAULT);
    assert!(g.random_seed < SEED_BOUND as u64);
    for s in g.gravel.iter() {
        assert_eq!(s.x_offset, 0);
        assert_eq!(s.y_offset, 0);
        assert_eq!(s.rotation, 0);
    }
}

#[test]
fn change_color_stays_in_the_palette() {
    let palette: Vec<Color> = (0..10).map(gravel::color::palette).collect();
    let mut g = state_with(42, ADJ_DEFAULT, ADJ_DEFAULT);
    for _ in 0..100 {
        let e = g.handle_input(Input::ChangeColor);
        assert_eq!(e, Effect::Redraw);
        assert!(palette.contains(&g.background_color));
        assert_eq!(g.random_seed, 42);
    }
}
