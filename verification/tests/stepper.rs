use esp_drv8833::{Direction, Level, Levels, Pulse, Rotation, Stepper, MICROS_PER_SECOND};

const IDLE: Levels =
    Levels { a_plus: Level::Low, a_minus: Level::Low, b_plus: Level::Low, b_minus: Level::Low };

const PHASES: [Levels; 4] = [
    Levels { a_plus: Level::High, a_minus: Level::Low, b_plus: Level::High, b_minus: Level::Low },
    Levels { a_plus: Level::Low, a_minus: Level::High, b_plus: Level::High, b_minus: Level::Low },
    Levels { a_plus: Level::Low, a_minus: Level::High, b_plus: Level::Low, b_minus: Level::High },
    Levels { a_plus: Level::High, a_minus: Level::Low, b_plus: Level::Low, b_minus: Level::High },
];

/// The number of steps that an angle in degrees amounts to.
fn steps_of(angle: f32, steps_per_rev: u32) -> i32 {
    ((angle / 360.0) * steps_per_rev as f32) as i32
}

/// Carries a rotation out and gives the pulses in their order.
fn carry_out(stepper: &mut Stepper, rotation: Rotation) -> Vec<Pulse> {
    let mut rotation = rotation;
    let mut pulses = Vec::new();
    while let Some(pulse) = stepper.advance(&mut rotation) {
        assert_eq!(pulse.levels, stepper.levels());
        pulses.push(pulse);
    }
    assert_eq!(rotation.remaining, 0);
    pulses
}

#[test]
fn a_new_stepper_is_idle_at_the_first_position() {
    let stepper = Stepper::new(200, 400);
    assert_eq!(stepper.step_index(), 0);
    assert_eq!(stepper.levels(), IDLE);
    assert_eq!(stepper.frequency_hz(), 200);
    assert_eq!(stepper.steps_per_rev(), 400);
}

#[test]
fn the_first_step_forward_skips_the_first_phase() {
    let mut stepper = Stepper::new(200, 200);
    assert_eq!(stepper.step_forward(), PHASES[1]);
    assert_eq!(stepper.step_index(), 1);
    assert_eq!(stepper.levels(), PHASES[1]);
}

#[test]
fn the_first_step_backward_wraps_to_the_last_phase() {
    let mut stepper = Stepper::new(200, 200);
    assert_eq!(stepper.step_backward(), PHASES[3]);
    assert_eq!(stepper.step_index(), 3);
}

#[test]
fn forward_then_backward_restores_the_position() {
    let mut stepper = Stepper::new(200, 200);
    stepper.step_forward();
    assert_eq!(stepper.step_backward(), PHASES[0]);
    assert_eq!(stepper.step_index(), 0);

    for start in 0..4usize {
        let mut stepper = Stepper::new(200, 200);
        for _ in 0..start {
            stepper.step_forward();
        }
        stepper.step_forward();
        assert_eq!(stepper.step_backward(), PHASES[start]);
        assert_eq!(stepper.step_index(), start);
        stepper.step_backward();
        assert_eq!(stepper.step_forward(), PHASES[start]);
        assert_eq!(stepper.step_index(), start);
    }
}

#[test]
fn four_steps_forward_close_the_cycle() {
    let mut stepper = Stepper::new(200, 200);
    let first: Vec<Levels> = (0..4).map(|_| stepper.step_forward()).collect();
    assert_eq!(first, vec![PHASES[1], PHASES[2], PHASES[3], PHASES[0]]);
    assert_eq!(stepper.step_index(), 0);
    for _ in 0..3 {
        let next: Vec<Levels> = (0..4).map(|_| stepper.step_forward()).collect();
        assert_eq!(next, first);
        assert_eq!(stepper.step_index(), 0);
    }
}

#[test]
fn four_steps_backward_close_the_cycle() {
    let mut stepper = Stepper::new(200, 200);
    let first: Vec<Levels> = (0..4).map(|_| stepper.step_backward()).collect();
    assert_eq!(first, vec![PHASES[3], PHASES[2], PHASES[1], PHASES[0]]);
    assert_eq!(stepper.step_index(), 0);
    let next: Vec<Levels> = (0..4).map(|_| stepper.step_backward()).collect();
    assert_eq!(next, first);
}

#[test]
fn every_phase_drives_one_end_of_each_coil() {
    let mut stepper = Stepper::new(200, 200);
    for _ in 0..8 {
        let levels = stepper.step_forward();
        assert_ne!(levels.a_plus, levels.a_minus);
        assert_ne!(levels.b_plus, levels.b_minus);
    }
}

#[test]
fn thirty_degrees_are_sixteen_steps_forward() {
    let mut stepper = Stepper::new(200, 200);
    let steps = steps_of(30.0, stepper.steps_per_rev());
    assert_eq!(steps, 16);

    let rotation = stepper.angle(steps);
    assert_eq!(rotation, Rotation { direction: Direction::Forward, remaining: 16, wait_micros: 5000 });

    let pulses = carry_out(&mut stepper, rotation);
    assert_eq!(pulses.len(), 16);
    for (k, pulse) in pulses.iter().enumerate() {
        assert_eq!(*pulse, Pulse { levels: PHASES[(k + 1) % 4], wait_micros: 5000 });
    }
    assert_eq!(stepper.step_index(), 0);
}

#[test]
fn minus_thirty_degrees_are_sixteen_steps_backward() {
    let mut stepper = Stepper::new(200, 200);
    let steps = steps_of(-30.0, stepper.steps_per_rev());
    assert_eq!(steps, -16);

    let rotation = stepper.angle(steps);
    assert_eq!(
        rotation,
        Rotation { direction: Direction::Backward, remaining: 16, wait_micros: 5000 }
    );

    let pulses = carry_out(&mut stepper, rotation);
    assert_eq!(pulses.len(), 16);
    for (k, pulse) in pulses.iter().enumerate() {
        assert_eq!(*pulse, Pulse { levels: PHASES[(4 - (k + 1) % 4) % 4], wait_micros: 5000 });
    }
    assert_eq!(stepper.step_index(), 0);
}

#[test]
fn no_angle_makes_no_step() {
    let mut stepper = Stepper::new(200, 200);
    assert_eq!(steps_of(0.0, 200), 0);
    assert_eq!(steps_of(-0.0, 200), 0);
    assert_eq!(steps_of(1.7, 200), 0);

    let mut rotation = stepper.angle(0);
    assert_eq!(rotation.remaining, 0);
    assert_eq!(stepper.advance(&mut rotation), None);
    assert_eq!(stepper.advance(&mut rotation), None);
    assert_eq!(rotation.remaining, 0);
    assert_eq!(stepper.step_index(), 0);
    assert_eq!(stepper.levels(), IDLE);
}

#[test]
fn a_rotation_goes_on_from_where_the_stepper_stands() {
    let mut stepper = Stepper::new(1000, 200);
    stepper.step_forward();
    stepper.step_forward();
    let rotation = stepper.angle(3);
    assert_eq!(stepper.step_index(), 2);
    let pulses = carry_out(&mut stepper, rotation);
    let levels: Vec<Levels> = pulses.iter().map(|pulse| pulse.levels).collect();
    assert_eq!(levels, vec![PHASES[3], PHASES[0], PHASES[1]]);
    assert_eq!(stepper.step_index(), 1);

    let rotation = stepper.angle(-2);
    let pulses = carry_out(&mut stepper, rotation);
    let levels: Vec<Levels> = pulses.iter().map(|pulse| pulse.levels).collect();
    assert_eq!(levels, vec![PHASES[0], PHASES[3]]);
    assert_eq!(stepper.step_index(), 3);
}

#[test]
fn one_step_of_a_rotation_at_a_time() {
    let mut stepper = Stepper::new(250, 200);
    let mut rotation = stepper.angle(2);
    assert_eq!(
        stepper.advance(&mut rotation),
        Some(Pulse { levels: PHASES[1], wait_micros: 4000 })
    );
    assert_eq!(rotation, Rotation { direction: Direction::Forward, remaining: 1, wait_micros: 4000 });
    assert_eq!(stepper.step_index(), 1);
    assert_eq!(
        stepper.advance(&mut rotation),
        Some(Pulse { levels: PHASES[2], wait_micros: 4000 })
    );
    assert_eq!(rotation.remaining, 0);
    assert_eq!(stepper.advance(&mut rotation), None);
    assert_eq!(stepper.step_index(), 2);
}

#[test]
fn the_wait_is_one_period_in_whole_microseconds() {
    assert_eq!(MICROS_PER_SECOND, 1_000_000);
    let waits = [
        (1, 1_000_000),
        (3, 333_333),
        (200, 5_000),
        (1_000, 1_000),
        (999_999, 1),
        (1_000_000, 1),
        (1_000_001, 0),
        (u32::MAX, 0),
    ];
    for (frequency_hz, wait_micros) in waits {
        let stepper = Stepper::new(frequency_hz, 200);
        assert_eq!(stepper.angle(1).wait_micros, wait_micros);
        assert_eq!(stepper.angle(-1).wait_micros, wait_micros);
    }
}

#[test]
fn a_rotation_waits_once_for_every_step() {
    let mut stepper = Stepper::new(3, 200);
    let rotation = stepper.angle(-7);
    let pulses = carry_out(&mut stepper, rotation);
    let waited: u64 = pulses.iter().map(|pulse| u64::from(pulse.wait_micros)).sum();
    assert_eq!(waited, 7 * 333_333);
}

#[test]
fn the_longest_rotations() {
    let stepper = Stepper::new(200, 200);
    assert_eq!(
        stepper.angle(i32::MAX),
        Rotation { direction: Direction::Forward, remaining: 2_147_483_647, wait_micros: 5000 }
    );
    assert_eq!(
        stepper.angle(i32::MIN),
        Rotation { direction: Direction::Backward, remaining: 2_147_483_648, wait_micros: 5000 }
    );
    assert_eq!(
        stepper.angle(i32::MIN + 1),
        Rotation { direction: Direction::Backward, remaining: 2_147_483_647, wait_micros: 5000 }
    );
}

#[test]
fn an_angle_is_cut_off_toward_zero() {
    assert_eq!(steps_of(30.0, 200), 16);
    assert_eq!(steps_of(-30.0, 200), -16);
    assert_eq!(steps_of(360.0, 200), 200);
    assert_eq!(steps_of(359.0, 200), 199);
    assert_eq!(steps_of(-359.0, 200), -199);
    assert_eq!(steps_of(90.0, 2048), 512);
}

#[test]
fn sixteen_steps_end_where_they_began() {
    let mut stepper = Stepper::new(200, 200);

    let mut pulses = 0;
    let mut rotation = stepper.angle(16);
    while let Some(pulse) = stepper.advance(&mut rotation) {
        assert_eq!(pulse.wait_micros, 5000);
        pulses += 1;
    }
    assert_eq!(pulses, 16);
    assert_eq!(stepper.step_index(), 0);
}
