use physics_time::mode::{PhysicsTimeMode, Speed, NORMAL_SPEED};
use physics_time::time::{PhysicsTime, PhysicsTimeExt, PhysicsTimeInner, DEFAULT_TIMESTEP};

const RUN_2X: PhysicsTimeMode = PhysicsTimeMode::Running { speed: Speed::Permille(2000) };
const NORMAL: PhysicsTimeMode = PhysicsTimeMode::Running { speed: Speed::Permille(NORMAL_SPEED) };

fn clock(timestep: u64) -> PhysicsTime {
    PhysicsTime::with_timestep(timestep).expect("a positive timestep")
}

#[test]
fn default_clock_runs_at_normal_speed_from_zero() {
    let time = PhysicsTime::default();
    assert_eq!(time.context().mode, NORMAL);
    assert_eq!(time.context().old_mode, NORMAL);
    assert_eq!(time.context().timestep, 15_625_000);
    assert_eq!(DEFAULT_TIMESTEP, 15_625_000);
    assert_eq!(time.context().overstep, 0);
    assert_eq!(time.elapsed(), 0);
    assert_eq!(PhysicsTimeMode::default(), NORMAL);
}

#[test]
fn default_inner_matches_default_clock() {
    let inner = PhysicsTimeInner::default();
    assert_eq!(inner.mode, NORMAL);
    assert_eq!(inner.old_mode, NORMAL);
    assert_eq!(inner.timestep, DEFAULT_TIMESTEP);
    assert_eq!(inner.overstep, 0);
}

#[test]
fn no_clock_without_a_timestep() {
    assert!(PhysicsTime::with_timestep(0).is_none());
    let time = clock(1);
    assert_eq!(time.context().timestep, 1);
}

#[test]
fn set_mode_remembers_only_running_modes() {
    let mut inner = PhysicsTimeInner::default();
    inner.overstep = 7;
    inner.set_mode(RUN_2X);
    assert_eq!(inner.mode, RUN_2X);
    assert_eq!(inner.old_mode, RUN_2X);
    inner.set_mode(PhysicsTimeMode::Paused);
    assert_eq!(inner.mode, PhysicsTimeMode::Paused);
    assert_eq!(inner.old_mode, RUN_2X);
    inner.set_mode(PhysicsTimeMode::OneTick);
    assert_eq!(inner.mode, PhysicsTimeMode::OneTick);
    assert_eq!(inner.old_mode, RUN_2X);
    assert_eq!(inner.overstep, 7);
    assert_eq!(inner.timestep, DEFAULT_TIMESTEP);
}

#[test]
fn clock_set_mode_keeps_time() {
    let mut time = clock(10);
    time.accumulate(25);
    assert!(time.try_consume_step());
    time.set_mode(PhysicsTimeMode::OneTick);
    assert_eq!(time.context().mode, PhysicsTimeMode::OneTick);
    assert_eq!(time.context().old_mode, NORMAL);
    assert_eq!(time.context().overstep, 15);
    assert_eq!(time.elapsed(), 10);
}

#[test]
fn accumulate_adds_scaled_delta() {
    let mut time = clock(10);
    time.accumulate(25);
    assert_eq!(time.context().overstep, 25);
    time.run(Speed::Permille(2000));
    time.accumulate(25);
    assert_eq!(time.context().overstep, 75);
    time.run(Speed::Permille(500));
    time.accumulate(25);
    assert_eq!(time.context().overstep, 87);
    time.run(Speed::Permille(0));
    time.accumulate(1_000_000);
    assert_eq!(time.context().overstep, 87);
}

#[test]
fn scale_rounds_down() {
    assert_eq!(Speed::scale(1, 999), 0);
    assert_eq!(Speed::scale(1000, 1), 1);
    assert_eq!(Speed::scale(16_666_667, 1000), 16_666_667);
    assert_eq!(Speed::scale(3, 1500), 4);
    assert_eq!(
        Speed::scale(u64::MAX, u32::MAX),
        (u64::MAX as u128) * (u32::MAX as u128) / 1000
    );
}

#[test]
fn accumulate_saturates() {
    let mut time = clock(10);
    time.accumulate(u64::MAX - 5);
    assert_eq!(time.context().overstep, u64::MAX - 5);
    time.accumulate(5);
    assert_eq!(time.context().overstep, u64::MAX);
    time.accumulate(1);
    assert_eq!(time.context().overstep, u64::MAX);
    let mut fast = clock(10);
    fast.run(Speed::Permille(u32::MAX));
    fast.accumulate(u64::MAX);
    assert_eq!(fast.context().overstep, u64::MAX);
}

#[test]
fn fast_forward_fills_the_overstep() {
    let mut time = clock(10);
    time.run(Speed::Unbounded);
    time.accumulate(0);
    assert_eq!(time.context().overstep, u64::MAX);
    assert_eq!(time.context().mode, PhysicsTimeMode::Running { speed: Speed::Unbounded });
}

#[test]
fn paused_and_one_tick_clocks_do_not_accumulate() {
    let mut time = clock(10);
    time.accumulate(7);
    time.pause();
    time.accumulate(1000);
    assert_eq!(time.context().overstep, 7);
    time.step();
    time.accumulate(1000);
    assert_eq!(time.context().overstep, 7);
}

#[test]
fn running_clock_consumes_whole_steps_only() {
    let mut time = clock(10);
    time.accumulate(25);
    assert!(time.try_consume_step());
    assert_eq!(time.context().overstep, 15);
    assert_eq!(time.elapsed(), 10);
    assert!(time.try_consume_step());
    assert_eq!(time.context().overstep, 5);
    assert_eq!(time.elapsed(), 20);
    assert!(!time.try_consume_step());
    assert_eq!(time.context().overstep, 5);
    assert_eq!(time.elapsed(), 20);
    assert_eq!(time.context().mode, NORMAL);
}

#[test]
fn running_clock_consumes_an_exact_step() {
    let mut time = clock(10);
    time.accumulate(10);
    assert!(time.try_consume_step());
    assert_eq!(time.context().overstep, 0);
    assert!(!time.try_consume_step());
}

#[test]
fn one_tick_gives_one_step_then_pauses() {
    let mut time = clock(10);
    time.accumulate(35);
    time.step();
    assert!(time.try_consume_step());
    assert_eq!(time.context().mode, PhysicsTimeMode::Paused);
    assert_eq!(time.context().overstep, 0);
    assert_eq!(time.elapsed(), 10);
    assert!(!time.try_consume_step());
    assert_eq!(time.elapsed(), 10);
    assert_eq!(time.context().old_mode, NORMAL);
}

#[test]
fn elapsed_is_a_multiple_of_the_timestep() {
    let mut time = PhysicsTime::default();
    let deltas: [u64; 6] = [16_666_667, 1, 33_000_000, 0, 15_625_000, 250_000_000];
    let mut steps: u64 = 0;
    for delta in deltas {
        time.accumulate(delta);
        while time.try_consume_step() {
            steps += 1;
        }
        time.clamp_overstep();
        assert_eq!(time.elapsed() % DEFAULT_TIMESTEP, 0);
        assert_eq!(time.elapsed(), steps * DEFAULT_TIMESTEP);
    }
    assert_eq!(steps, 20);
}

#[test]
fn elapsed_saturates() {
    let mut time = clock(u64::MAX - 1);
    time.run(Speed::Unbounded);
    time.accumulate(0);
    assert!(time.try_consume_step());
    assert_eq!(time.elapsed(), u64::MAX - 1);
    assert_eq!(time.context().overstep, 1);
    time.accumulate(0);
    assert!(time.try_consume_step());
    assert_eq!(time.elapsed(), u64::MAX);
    time.accumulate(0);
    assert!(time.try_consume_step());
    assert_eq!(time.elapsed(), u64::MAX);
}

#[test]
fn clamp_caps_overstep_at_three_steps() {
    let mut time = clock(10);
    time.accumulate(1000);
    time.clamp_overstep();
    assert_eq!(time.context().overstep, 30);
    time.clamp_overstep();
    assert_eq!(time.context().overstep, 30);
    let mut small = clock(10);
    small.accumulate(29);
    small.clamp_overstep();
    assert_eq!(small.context().overstep, 29);
    assert_eq!(small.elapsed(), 0);
}

#[test]
fn clamp_with_a_huge_timestep_keeps_everything() {
    let mut time = clock(u64::MAX / 2);
    time.accumulate(u64::MAX);
    time.clamp_overstep();
    assert_eq!(time.context().overstep, u64::MAX);
}

#[test]
fn pause_is_idempotent() {
    let mut time = clock(10);
    time.accumulate(25);
    assert!(time.try_consume_step());
    time.pause();
    let once = (time.context().mode, time.context().old_mode, time.context().overstep, time.elapsed());
    time.pause();
    time.pause();
    let thrice =
        (time.context().mode, time.context().old_mode, time.context().overstep, time.elapsed());
    assert_eq!(once, thrice);
    assert_eq!(once, (PhysicsTimeMode::Paused, NORMAL, 15, 10));
    assert!(!time.try_consume_step());
    assert_eq!(time.context().overstep, 15);
    assert_eq!(time.elapsed(), 10);
}

#[test]
fn resume_restores_rate() {
    let mut time = PhysicsTime::default();
    time.run(Speed::Permille(2000));
    time.pause();
    assert_eq!(time.context().mode, PhysicsTimeMode::Paused);
    time.resume();
    assert_eq!(time.context().mode, RUN_2X);
}

#[test]
fn resume_before_any_run_goes_to_normal_speed() {
    let mut time = PhysicsTime::default();
    time.pause();
    time.resume();
    assert_eq!(time.context().mode, NORMAL);
    time.step();
    time.resume();
    assert_eq!(time.context().mode, NORMAL);
    time.run(Speed::Unbounded);
    time.resume();
    assert_eq!(time.context().mode, PhysicsTimeMode::Running { speed: Speed::Unbounded });
}

#[test]
fn reset_restores_the_fresh_state() {
    let mut time = clock(10);
    time.run(Speed::Unbounded);
    time.accumulate(5);
    assert!(time.try_consume_step());
    time.pause();
    time.reset();
    assert_eq!(time.elapsed(), 0);
    assert_eq!(time.context().overstep, 0);
    assert_eq!(time.context().mode, NORMAL);
    assert_eq!(time.context().old_mode, NORMAL);
    assert_eq!(time.context().timestep, 10);
    time.resume();
    assert_eq!(time.context().mode, NORMAL);
}

#[test]
fn is_running_tells_the_modes_apart() {
    assert!(NORMAL.is_running());
    assert!(PhysicsTimeMode::Running { speed: Speed::Unbounded }.is_running());
    assert!(!PhysicsTimeMode::Paused.is_running());
    assert!(!PhysicsTimeMode::OneTick.is_running());
}
