use lander_core::try_tick;
use lander_core::update_attitude;
use lander_core::CraftState;
use lander_core::EnvironmentConstants;
use lander_core::InputSnapshot;
use lander_core::Thruster;
use lander_core::Vec2Fx;
use lander_core::DEFAULT_BASELINE_ALTITUDE;
use lander_core::DEFAULT_BOOST_MAGNITUDE;
use lander_core::DEFAULT_RCS_RATE;
use lander_core::FX_ONE;

fn no_input() -> InputSnapshot {
    InputSnapshot { rotate_left: false, rotate_right: false, boost_up: false }
}

fn default_env() -> EnvironmentConstants {
    EnvironmentConstants::new(
        69793218560,  // 16.25 units/s^2
        DEFAULT_RCS_RATE,
        DEFAULT_BOOST_MAGNITUDE,
        DEFAULT_BASELINE_ALTITUDE,
    )
    .unwrap()
}

fn craft_at_origin(env: &EnvironmentConstants) -> CraftState {
    CraftState::new(env, Vec2Fx { x: 0, y: 0 }, 0)
}

fn to_units(bits: i64) -> f64 {
    bits as f64 / FX_ONE as f64
}

#[test]
fn gravity_only_tick_is_exact() {
    // Gravity 16.0 and dt 0.25 are exact in Q32.32, so the whole tick is.
    let env = EnvironmentConstants::new(
        68719476736,  // 16.0
        DEFAULT_RCS_RATE,
        DEFAULT_BOOST_MAGNITUDE,
        DEFAULT_BASELINE_ALTITUDE,
    )
    .unwrap();
    let mut craft = craft_at_origin(&env);
    let dt = FX_ONE / 4;
    assert!(try_tick(&mut craft, &no_input(), dt, &env));
    // dv = -16.0 * 0.25 = -4.0; dp = -4.0 * 0.25 = -1.0
    assert_eq!(craft.velocity.y, -4 * FX_ONE);
    assert_eq!(craft.velocity.x, 0);
    assert_eq!(craft.position.y, -FX_ONE);
    assert_eq!(craft.position.x, 0);
    assert_eq!(craft.orientation, 0);
    assert_eq!(craft.thruster, Thruster::Off);
    assert_eq!(craft.altitude, DEFAULT_BASELINE_ALTITUDE - FX_ONE);
}

#[test]
fn rotation_priority_left_wins() {
    let env = EnvironmentConstants::new(
        0,
        FX_ONE / 2,  // 0.5 rad/s
        DEFAULT_BOOST_MAGNITUDE,
        DEFAULT_BASELINE_ALTITUDE,
    )
    .unwrap();
    let both = InputSnapshot { rotate_left: true, rotate_right: true, boost_up: false };
    let mut craft = craft_at_origin(&env);
    let dt = FX_ONE / 2;
    // delta = 0.5 rad/s * 0.5 s = 0.25 rad, exactly; never the right-hand -0.25.
    assert!(try_tick(&mut craft, &both, dt, &env));
    assert_eq!(craft.thruster, Thruster::Left);
    assert_eq!(craft.orientation, FX_ONE / 4);
}

#[test]
fn rotation_right_when_left_released() {
    let env = EnvironmentConstants::new(0, FX_ONE / 2, 0, 0).unwrap();
    let right = InputSnapshot { rotate_left: false, rotate_right: true, boost_up: false };
    let mut craft = craft_at_origin(&env);
    assert!(try_tick(&mut craft, &right, FX_ONE / 2, &env));
    assert_eq!(craft.thruster, Thruster::Right);
    assert_eq!(craft.orientation, -(FX_ONE / 4));
}

#[test]
fn thruster_recomputed_every_tick() {
    let env = default_env();
    let left = InputSnapshot { rotate_left: true, rotate_right: false, boost_up: false };
    let mut craft = craft_at_origin(&env);
    assert!(try_tick(&mut craft, &left, FX_ONE / 100, &env));
    assert_eq!(craft.thruster, Thruster::Left);
    // Releasing everything switches the thruster off again: level-triggered,
    // nothing latched.
    assert!(try_tick(&mut craft, &no_input(), FX_ONE / 100, &env));
    assert_eq!(craft.thruster, Thruster::Off);
}

#[test]
fn update_attitude_without_rotation_input_keeps_orientation() {
    let mut craft = craft_at_origin(&default_env());
    let boost_only = InputSnapshot { rotate_left: false, rotate_right: false, boost_up: true };
    update_attitude(&mut craft, &boost_only, FX_ONE, DEFAULT_RCS_RATE);
    assert_eq!(craft.orientation, 0);
    assert_eq!(craft.thruster, Thruster::Off);
}

#[test]
fn thrust_follows_attitude_at_zero_angle() {
    // Gravity zero isolates the thrust: at orientation 0 the boost points
    // straight up, so one second of boost 100 gives velocity about (0, 100).
    let env = EnvironmentConstants::new(0, DEFAULT_RCS_RATE, DEFAULT_BOOST_MAGNITUDE, 0).unwrap();
    let boost = InputSnapshot { rotate_left: false, rotate_right: false, boost_up: true };
    let mut craft = craft_at_origin(&env);
    assert!(try_tick(&mut craft, &boost, FX_ONE, &env));
    assert!(to_units(craft.velocity.x).abs() < 0.01);
    assert!((to_units(craft.velocity.y) - 100.0).abs() < 0.01);
}

#[test]
fn thrust_follows_attitude_at_quarter_turn() {
    // Rotated by pi/2 the nose points along -x: the same boost accelerates
    // the craft to velocity about (-100, 0).
    let env = EnvironmentConstants::new(0, DEFAULT_RCS_RATE, DEFAULT_BOOST_MAGNITUDE, 0).unwrap();
    let boost = InputSnapshot { rotate_left: false, rotate_right: false, boost_up: true };
    let quarter_turn = 6746518852;  // pi/2 in Q32.32
    let mut craft = CraftState::new(&env, Vec2Fx { x: 0, y: 0 }, quarter_turn);
    assert!(try_tick(&mut craft, &boost, FX_ONE, &env));
    assert!((to_units(craft.velocity.x) + 100.0).abs() < 0.1);
    assert!(to_units(craft.velocity.y).abs() < 0.1);
}

#[test]
fn altitude_always_derived_from_position() {
    let env = default_env();
    let mut craft = craft_at_origin(&env);
    assert_eq!(craft.altitude, DEFAULT_BASELINE_ALTITUDE);
    let scripts = [
        InputSnapshot { rotate_left: true, rotate_right: false, boost_up: true },
        InputSnapshot { rotate_left: false, rotate_right: true, boost_up: false },
        no_input(),
        InputSnapshot { rotate_left: false, rotate_right: false, boost_up: true },
    ];
    for round in 0..5usize {
        let input = &scripts[round % scripts.len()];
        assert!(try_tick(&mut craft, input, 429496729, &env));
        assert_eq!(craft.altitude, DEFAULT_BASELINE_ALTITUDE + craft.position.y);
    }
}

#[test]
fn zero_dt_is_steady_state() {
    let env = default_env();
    let held = InputSnapshot { rotate_left: true, rotate_right: false, boost_up: true };
    let mut craft = craft_at_origin(&env);
    for _ in 0..3 {
        assert!(try_tick(&mut craft, &held, 0, &env));
        assert_eq!(craft.position, Vec2Fx { x: 0, y: 0 });
        assert_eq!(craft.velocity, Vec2Fx { x: 0, y: 0 });
        assert_eq!(craft.orientation, 0);
        // The thruster still reflects the held input.
        assert_eq!(craft.thruster, Thruster::Left);
    }
}

#[test]
fn overflowing_tick_leaves_state_untouched() {
    let env = EnvironmentConstants::new(0, FX_ONE, 0, 0).unwrap();
    let left = InputSnapshot { rotate_left: true, rotate_right: false, boost_up: false };
    let mut craft = CraftState::new(&env, Vec2Fx { x: 7, y: 9 }, i64::MAX);
    let before = craft;
    // One more radian of rotation cannot be represented.
    assert!(!try_tick(&mut craft, &left, FX_ONE, &env));
    assert_eq!(craft, before);
}

#[test]
fn craft_new_derives_altitude() {
    let env = default_env();
    let craft = CraftState::new(&env, Vec2Fx { x: 5, y: -12345 }, 42);
    assert_eq!(craft.altitude, DEFAULT_BASELINE_ALTITUDE - 12345);
    assert_eq!(craft.velocity, Vec2Fx { x: 0, y: 0 });
    assert_eq!(craft.thruster, Thruster::Off);
    assert_eq!(craft.orientation, 42);
}
