use electric_field_visualizer::{
    adjust_charge, Charge, Emission, Game, Key, Particle, Placement, Point, Sample, TraceStatus,
    LINES_PER_CHARGE,
};

/// A line starts on its source, one row lower for each direction.
fn straight_from(emission: Emission) -> (Point, Point) {
    let seed = Point { x: emission.origin.x, y: emission.origin.y + emission.direction as i32 };
    (seed, seed)
}

/// A line runs to the right and meets no sink.
fn one_to_the_right(p: Point) -> (Point, Sample) {
    let next = Point { x: p.x + 1, y: p.y };
    (next, Sample { point: next, in_sink: false })
}

fn game_with(charges: &[(i32, i32, i64)]) -> Game {
    let mut game = Game::default();
    for &(x, y, steps) in charges {
        select(&mut game, steps);
        game.handle_mouse_down(x, y);
    }
    game
}

fn select(game: &mut Game, steps: i64) {
    game.handle_keydown(Key::N);
    for _ in 0..steps.abs() {
        game.handle_keydown(if steps > 0 { Key::Equals } else { Key::Minus });
    }
}

#[test]
fn fresh_game_is_empty_and_neutral() {
    let game = Game::default();
    assert!(game.particles().is_empty());
    assert_eq!(game.current_selected_charge(), 0);
}

#[test]
fn sign_decides_the_class() {
    assert_eq!(Charge { x: 0, y: 0, steps: 1 }.particle(), Particle::Positive);
    assert_eq!(Charge { x: 0, y: 0, steps: i64::MAX }.particle(), Particle::Positive);
    assert_eq!(Charge { x: 0, y: 0, steps: -1 }.particle(), Particle::Negative);
    assert_eq!(Charge { x: 0, y: 0, steps: i64::MIN }.particle(), Particle::Negative);
    assert_eq!(Charge { x: 0, y: 0, steps: 0 }.particle(), Particle::Neutral);
}

#[test]
fn keys_adjust_the_selected_charge_by_one_step() {
    let mut game = Game::default();
    assert_eq!(game.handle_keydown(Key::Equals), 1);
    assert_eq!(game.handle_keydown(Key::Equals), 2);
    assert_eq!(game.handle_keydown(Key::Minus), 1);
    assert_eq!(game.handle_keydown(Key::Minus), 0);
    assert_eq!(game.handle_keydown(Key::Minus), -1);
    assert_eq!(game.current_selected_charge(), -1);
    assert_eq!(game.handle_keydown(Key::N), 0);
    assert_eq!(game.current_selected_charge(), 0);
}

#[test]
fn other_keys_leave_the_selected_charge_alone() {
    let mut game = Game::default();
    game.handle_keydown(Key::Equals);
    assert_eq!(game.handle_keydown(Key::Other), 1);
    assert_eq!(game.handle_keydown(Key::Q), 1);
    assert!(game.particles().is_empty());
}

#[test]
fn step_up_then_down_is_exactly_neutral() {
    let mut game = Game::default();
    for _ in 0..1000 {
        game.handle_keydown(Key::Equals);
    }
    for _ in 0..1000 {
        game.handle_keydown(Key::Minus);
    }
    assert_eq!(game.current_selected_charge(), 0);
    assert_eq!(game.handle_mouse_down(1, 2).particle(), Particle::Neutral);
}

#[test]
fn press_appends_a_charge_of_the_selected_magnitude() {
    let mut game = Game::default();
    game.handle_keydown(Key::Equals);
    assert_eq!(game.handle_mouse_down(100, 100), Charge { x: 100, y: 100, steps: 1 });
    game.handle_keydown(Key::Minus);
    game.handle_keydown(Key::Minus);
    assert_eq!(game.handle_mouse_down(200, 100), Charge { x: 200, y: 100, steps: -1 });
    assert_eq!(
        game.particles().as_slice(),
        &[Charge { x: 100, y: 100, steps: 1 }, Charge { x: 200, y: 100, steps: -1 }]
    );
    assert_eq!(game.current_selected_charge(), -1);
}

#[test]
fn add_charge_appends_and_keeps_the_selection() {
    let mut game = Game::default();
    game.handle_keydown(Key::Equals);
    game.add_charge(7, -9, -4);
    game.add_charge(7, -9, 0);
    assert_eq!(
        game.particles().as_slice(),
        &[Charge { x: 7, y: -9, steps: -4 }, Charge { x: 7, y: -9, steps: 0 }]
    );
    assert_eq!(game.current_selected_charge(), 1);
}

#[test]
fn magnitude_stops_at_the_ends_of_its_range() {
    assert_eq!(adjust_charge(i64::MAX, Key::Equals), i64::MAX);
    assert_eq!(adjust_charge(i64::MAX - 1, Key::Equals), i64::MAX);
    assert_eq!(adjust_charge(i64::MAX, Key::Minus), i64::MAX - 1);
    assert_eq!(adjust_charge(i64::MIN, Key::Minus), i64::MIN);
    assert_eq!(adjust_charge(i64::MIN + 1, Key::Minus), i64::MIN);
    assert_eq!(adjust_charge(i64::MIN, Key::Equals), i64::MIN + 1);
    assert_eq!(adjust_charge(i64::MIN, Key::N), 0);
    assert_eq!(adjust_charge(i64::MAX, Key::Other), i64::MAX);
}

#[test]
fn key_adjusts_a_magnitude_by_one_step() {
    assert_eq!(adjust_charge(0, Key::Equals), 1);
    assert_eq!(adjust_charge(0, Key::Minus), -1);
    assert_eq!(adjust_charge(-7, Key::Equals), -6);
    assert_eq!(adjust_charge(7, Key::Minus), 6);
    assert_eq!(adjust_charge(7, Key::N), 0);
    assert_eq!(adjust_charge(7, Key::Q), 7);
}

#[test]
fn largest_magnitudes_keep_their_class() {
    let mut game = Game::default();
    game.add_charge(0, 0, i64::MAX);
    game.add_charge(0, 0, i64::MIN);
    assert_eq!(game.emissions().len(), 16);
    assert_eq!(game.sinks().len(), 1);
}

#[test]
fn charges_may_overlap() {
    let game = game_with(&[(5, 5, 1), (5, 5, 1), (5, 5, -2)]);
    assert_eq!(game.particles().len(), 3);
    assert_eq!(game.emissions().len(), 32);
    assert_eq!(game.sinks(), vec![Point { x: 5, y: 5 }]);
}

#[test]
fn sixteen_lines_leave_every_positive_charge() {
    let game = game_with(&[(10, 10, 1), (20, 20, 3), (30, 30, 2)]);
    let plan = game.emissions();
    assert_eq!(LINES_PER_CHARGE, 16);
    assert_eq!(plan.len(), 16 * 3);
    for (j, line) in plan.iter().enumerate() {
        let source = (j / 16) as i32;
        assert_eq!(line.origin, Point { x: 10 * (source + 1), y: 10 * (source + 1) });
        assert_eq!(line.direction as usize, j % 16);
    }
}

#[test]
fn lines_leave_positive_charges_only() {
    let game = game_with(&[(1, 1, -1), (2, 2, 2), (3, 3, 0), (4, 4, 1), (5, 5, -3)]);
    let plan = game.emissions();
    assert_eq!(plan.len(), 32);
    assert_eq!(plan[0], Emission { origin: Point { x: 2, y: 2 }, direction: 0 });
    assert_eq!(plan[15], Emission { origin: Point { x: 2, y: 2 }, direction: 15 });
    assert_eq!(plan[16], Emission { origin: Point { x: 4, y: 4 }, direction: 0 });
    assert_eq!(plan[31], Emission { origin: Point { x: 4, y: 4 }, direction: 15 });
}

#[test]
fn neutral_and_negative_charges_emit_nothing() {
    let game = game_with(&[(1, 1, -1), (2, 2, 0), (3, 3, -5), (4, 4, 0)]);
    assert!(game.emissions().is_empty());
    assert!(game.on_update(straight_from, one_to_the_right).lines.is_empty());
}

#[test]
fn empty_game_shows_nothing() {
    let frame = Game::default().on_update(straight_from, one_to_the_right);
    assert!(frame.icons.is_empty());
    assert!(frame.lines.is_empty());
}

#[test]
fn only_negative_charges_are_sinks() {
    let game = game_with(&[(1, 1, -1), (2, 2, 2), (3, 3, 0), (4, 4, 1), (5, 5, -3)]);
    assert_eq!(game.sinks(), vec![Point { x: 1, y: 1 }, Point { x: 5, y: 5 }]);
}

#[test]
fn every_charge_gets_an_icon_of_its_class() {
    let game = game_with(&[(1, 2, -1), (3, 4, 2), (5, 6, 0)]);
    assert_eq!(
        game.icons(),
        vec![
            Placement { particle: Particle::Negative, x: 1, y: 2 },
            Placement { particle: Particle::Positive, x: 3, y: 4 },
            Placement { particle: Particle::Neutral, x: 5, y: 6 },
        ]
    );
}

#[test]
fn icon_coordinates_stop_at_sixteen_bits() {
    let game = game_with(&[(40_000, -40_000, 1), (32_767, -32_768, 1), (i32::MAX, i32::MIN, 0)]);
    assert_eq!(
        game.icons(),
        vec![
            Placement { particle: Particle::Positive, x: 32_767, y: -32_768 },
            Placement { particle: Particle::Positive, x: 32_767, y: -32_768 },
            Placement { particle: Particle::Neutral, x: 32_767, y: -32_768 },
        ]
    );
}

#[test]
fn redraw_holds_an_icon_per_charge_and_a_line_per_emission() {
    let game = game_with(&[(100, 100, 1), (200, 100, -1), (0, 0, 2)]);
    let frame = game.on_update(straight_from, one_to_the_right);
    assert_eq!(
        frame.icons,
        vec![
            Placement { particle: Particle::Positive, x: 100, y: 100 },
            Placement { particle: Particle::Negative, x: 200, y: 100 },
            Placement { particle: Particle::Positive, x: 0, y: 0 },
        ]
    );
    assert_eq!(frame.lines.len(), 32);
    for (j, line) in frame.lines.iter().enumerate() {
        let origin = if j < 16 { 100 } else { 0 };
        assert_eq!(line.status(), TraceStatus::Exhausted);
        assert_eq!(line.points().len(), 4097);
        assert_eq!(line.points()[0], Point { x: origin, y: origin + (j % 16) as i32 });
        assert_eq!(line.points()[4096], Point { x: origin + 4096, y: origin + (j % 16) as i32 });
    }
}

#[test]
fn redraw_ends_a_line_where_the_stepper_reports_a_sink() {
    let game = game_with(&[(100, 100, 1)]);
    let frame = game.on_update(straight_from, |p: Point| {
        let next = Point { x: p.x + 1, y: p.y };
        (next, Sample { point: next, in_sink: next.x == next.y + 3 })
    });
    assert_eq!(frame.lines.len(), 16);
    for (j, line) in frame.lines.iter().enumerate() {
        let steps = 3 + j;
        assert_eq!(line.status(), TraceStatus::Captured);
        assert_eq!(line.steps(), steps);
        assert_eq!(
            *line.points().last().unwrap(),
            Point { x: 100 + steps as i32, y: 100 + j as i32 }
        );
    }
}
