use rtiow::hit::{choose_root, Root};
use rtiow::path::{advance, start, PathEnd, PathStep, TraceOutcome};
use rtiow::scatter::{choose_bounce, Bounce};
use rtiow::settings::{RenderSettings, DEFAULT_MAX_DEPTH, DEFAULT_SAMPLES_PER_PIXEL};

fn drive(max_depth: u32, outcomes: &[TraceOutcome]) -> (PathStep, usize) {
    let mut step = start(max_depth);
    let mut used = 0;
    while let PathStep::Trace(depth) = step {
        if used == outcomes.len() {
            break;
        }
        step = advance(depth, outcomes[used]);
        used += 1;
    }
    (step, used)
}

#[test]
fn zero_depth_is_black_without_tracing() {
    assert_eq!(start(0), PathStep::Done(PathEnd::DepthExhausted));
    let (step, used) = drive(0, &[TraceOutcome::Missed]);
    assert_eq!(step, PathStep::Done(PathEnd::DepthExhausted));
    assert_eq!(used, 0);
}

#[test]
fn positive_depth_traces() {
    assert_eq!(start(3), PathStep::Trace(3));
}

#[test]
fn depth_one_escape_sees_background() {
    let (step, used) = drive(1, &[TraceOutcome::Missed]);
    assert_eq!(step, PathStep::Done(PathEnd::Escaped));
    assert_eq!(used, 1);
}

#[test]
fn depth_one_scatter_spends_budget() {
    let (step, used) = drive(1, &[TraceOutcome::Scattered, TraceOutcome::Missed]);
    assert_eq!(step, PathStep::Done(PathEnd::DepthExhausted));
    assert_eq!(used, 1);
}

#[test]
fn absorbed_path_ends_absorbed() {
    assert_eq!(advance(5, TraceOutcome::Absorbed), PathStep::Done(PathEnd::Absorbed));
    let (step, used) = drive(4, &[TraceOutcome::Scattered, TraceOutcome::Absorbed]);
    assert_eq!(step, PathStep::Done(PathEnd::Absorbed));
    assert_eq!(used, 2);
}

#[test]
fn scatter_lowers_budget_by_one() {
    assert_eq!(advance(5, TraceOutcome::Scattered), PathStep::Trace(4));
    assert_eq!(advance(2, TraceOutcome::Scattered), PathStep::Trace(1));
    assert_eq!(advance(1, TraceOutcome::Scattered), PathStep::Done(PathEnd::DepthExhausted));
}

#[test]
fn facing_mirrors_terminate_within_budget() {
    let outcomes = vec![TraceOutcome::Scattered; 100];
    let (step, used) = drive(10, &outcomes);
    assert_eq!(step, PathStep::Done(PathEnd::DepthExhausted));
    assert_eq!(used, 10);
}

#[test]
fn largest_budget_counts_down() {
    assert_eq!(start(u32::MAX), PathStep::Trace(u32::MAX));
    assert_eq!(advance(u32::MAX, TraceOutcome::Scattered), PathStep::Trace(u32::MAX - 1));
}

#[test]
fn total_internal_reflection_always_reflects() {
    assert_eq!(choose_bounce(true, false), Bounce::Reflect);
    assert_eq!(choose_bounce(true, true), Bounce::Reflect);
}

#[test]
fn schlick_draw_decides_when_refraction_possible() {
    assert_eq!(choose_bounce(false, true), Bounce::Reflect);
    assert_eq!(choose_bounce(false, false), Bounce::Refract);
}

#[test]
fn near_root_preferred() {
    assert_eq!(choose_root(true, true), Some(Root::Near));
    assert_eq!(choose_root(true, false), Some(Root::Near));
}

#[test]
fn far_root_when_near_outside() {
    assert_eq!(choose_root(false, true), Some(Root::Far));
}

#[test]
fn no_root_in_range_is_miss() {
    assert_eq!(choose_root(false, false), None);
}

#[test]
fn settings_defaults() {
    let s = RenderSettings::new();
    assert_eq!(s.samples_per_pixel, DEFAULT_SAMPLES_PER_PIXEL);
    assert_eq!(s.max_depth, DEFAULT_MAX_DEPTH);
    assert_eq!(s.samples_per_pixel, 10);
    assert_eq!(s.max_depth, 10);
}

#[test]
fn settings_setters_change_one_field() {
    let mut s = RenderSettings::new();
    s.set_samples_per_pixel(50);
    assert_eq!(s.samples_per_pixel, 50);
    assert_eq!(s.max_depth, 10);
    s.set_max_depth(1);
    assert_eq!(s.max_depth, 1);
    assert_eq!(s.samples_per_pixel, 50);
}
