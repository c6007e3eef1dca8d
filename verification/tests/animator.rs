use fractal_core::animator::Phase;
use fractal_core::animator::TickAction;

#[test]
fn start_runs_from_either_phase() {
    assert_eq!(Phase::Idle.start(), Phase::Running);
    assert_eq!(Phase::Running.start(), Phase::Running);
}

#[test]
fn stop_idles_from_either_phase() {
    assert_eq!(Phase::Idle.stop(), Phase::Idle);
    assert_eq!(Phase::Running.stop(), Phase::Idle);
}

#[test]
fn is_running_tells_the_phases_apart() {
    assert!(Phase::Running.is_running());
    assert!(!Phase::Idle.is_running());
}

#[test]
fn a_tick_while_idle_rests() {
    assert_eq!(Phase::Idle.tick(false), (Phase::Idle, TickAction::Rest));
    assert_eq!(Phase::Idle.tick(true), (Phase::Idle, TickAction::Rest));
}

#[test]
fn a_tick_before_the_end_interpolates() {
    assert_eq!(Phase::Running.tick(false), (Phase::Running, TickAction::Interpolate));
}

#[test]
fn a_tick_at_the_end_finishes() {
    assert_eq!(Phase::Running.tick(true), (Phase::Idle, TickAction::Finish));
}

#[test]
fn an_animation_runs_until_its_clock_reaches_the_duration() {
    let duration = 1.0f64;
    let dt = 0.3f64;
    let mut elapsed = 0.0f64;
    let mut phase = Phase::Idle.start();
    let mut actions = Vec::new();
    for _ in 0..6 {
        let mut complete = false;
        if phase.is_running() {
            elapsed += dt;
            complete = (elapsed / duration).min(1.0) >= 1.0;
        }
        let (next, action) = phase.tick(complete);
        if action == TickAction::Finish {
            elapsed = 0.0;
        }
        actions.push(action);
        phase = next;
    }
    assert_eq!(
        actions,
        vec![
            TickAction::Interpolate,
            TickAction::Interpolate,
            TickAction::Interpolate,
            TickAction::Finish,
            TickAction::Rest,
            TickAction::Rest,
        ]
    );
    assert_eq!(phase, Phase::Idle);
    assert_eq!(elapsed, 0.0);
}
