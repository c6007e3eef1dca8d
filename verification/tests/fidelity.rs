use fractal_core::fidelity::Fidelity;
use fractal_core::fidelity::PassState;
use fractal_core::fidelity::FAST_BLOCK;

const STATES: [PassState; 3] =
    [PassState::Idle, PassState::Interacting, PassState::SettlingToHighQuality];

#[test]
fn block_side_is_two_for_a_preview_and_one_for_a_final_frame() {
    assert_eq!(FAST_BLOCK, 2);
    assert_eq!(Fidelity::Fast.block_side(), 2);
    assert_eq!(Fidelity::HighQuality.block_side(), 1);
}

#[test]
fn the_first_frame_is_a_final_frame() {
    let state = PassState::initial();
    assert_eq!(state, PassState::SettlingToHighQuality);
    assert_eq!(state.observe(false, false, false).pending(), Some(Fidelity::HighQuality));
}

#[test]
fn pending_names_the_pass_of_each_state() {
    assert_eq!(PassState::Idle.pending(), None);
    assert_eq!(PassState::Interacting.pending(), Some(Fidelity::Fast));
    assert_eq!(PassState::SettlingToHighQuality.pending(), Some(Fidelity::HighQuality));
}

#[test]
fn a_gesture_in_flight_always_leads_to_a_preview() {
    for state in STATES {
        for changed in [false, true] {
            for (dragging, zooming) in [(true, false), (false, true), (true, true)] {
                let next = state.observe(dragging, zooming, changed);
                assert_eq!(next, PassState::Interacting);
                assert_eq!(next.pending(), Some(Fidelity::Fast));
            }
        }
    }
}

#[test]
fn no_preview_is_scheduled_without_a_gesture() {
    for state in STATES {
        for changed in [false, true] {
            assert_ne!(state.observe(false, false, changed).pending(), Some(Fidelity::Fast));
        }
    }
}

#[test]
fn the_end_of_a_gesture_owes_one_final_frame() {
    let settling = PassState::Interacting.observe(false, false, false);
    assert_eq!(settling, PassState::SettlingToHighQuality);
    assert_eq!(settling.pending(), Some(Fidelity::HighQuality));
    let settled = settling.completed(Fidelity::HighQuality);
    assert_eq!(settled, PassState::Idle);
    let resting = settled.observe(false, false, false);
    assert_eq!(resting, PassState::Idle);
    assert_eq!(resting.pending(), None);
}

#[test]
fn an_idle_view_asks_for_a_final_frame_when_it_changes() {
    assert_eq!(PassState::Idle.observe(false, false, true), PassState::SettlingToHighQuality);
    assert_eq!(PassState::Idle.observe(false, false, false), PassState::Idle);
}

#[test]
fn a_completed_preview_settles_nothing() {
    for state in STATES {
        assert_eq!(state.completed(Fidelity::Fast), state);
    }
}

#[test]
fn a_completed_final_frame_settles_only_a_settling_state() {
    assert_eq!(PassState::SettlingToHighQuality.completed(Fidelity::HighQuality), PassState::Idle);
    assert_eq!(PassState::Interacting.completed(Fidelity::HighQuality), PassState::Interacting);
    assert_eq!(PassState::Idle.completed(Fidelity::HighQuality), PassState::Idle);
}

#[test]
fn an_owed_final_frame_stays_owed_until_it_is_rendered() {
    let mut state = PassState::SettlingToHighQuality;
    for changed in [false, true, false] {
        state = state.observe(false, false, changed);
        assert_eq!(state.pending(), Some(Fidelity::HighQuality));
    }
}

#[test]
fn a_drag_session_runs_previews_then_one_final_frame() {
    let mut state = PassState::initial();
    let mut passes = Vec::new();
    let frames = [
        (false, false, false),
        (false, false, false),
        (true, false, true),
        (true, false, true),
        (true, true, true),
        (false, false, false),
        (false, false, false),
        (false, false, true),
        (false, false, false),
    ];
    for (dragging, zooming, changed) in frames {
        state = state.observe(dragging, zooming, changed);
        let pass = state.pending();
        passes.push(pass);
        if let Some(fidelity) = pass {
            state = state.completed(fidelity);
        }
    }
    let hq = Some(Fidelity::HighQuality);
    let fast = Some(Fidelity::Fast);
    assert_eq!(passes, vec![hq, None, fast, fast, fast, hq, None, hq, None]);
}
