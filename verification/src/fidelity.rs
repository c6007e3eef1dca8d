//! Fidelity tiers and the policy that picks the tier of the next pass.

use vstd::prelude::*;

verus! {

/// Quality tier of one render pass.
#[derive(Clone, Copy, Debug, PartialEq, Eq, Structural)]
pub enum Fidelity {
    /// Coarse preview: one sample per tile of side `FAST_BLOCK`, at the
    /// reduced iteration cap.
    Fast,
    /// Final frame: one sample per pixel, at the full effective cap.
    HighQuality,
}

/// Side of the tiles of a preview pass.
pub const FAST_BLOCK: usize = 2;

impl Fidelity {
    /// Side of the work units of this tier.
    pub open spec fn block(self) -> int {
        match self {
            Fidelity::Fast => FAST_BLOCK as int,
            Fidelity::HighQuality => 1,
        }
    }

    /// Side of the work units of this tier.
    pub fn block_side(self) -> (side: usize)
        ensures
            side as int == self.block(),
    {
        match self {
            Fidelity::Fast => FAST_BLOCK,
            Fidelity::HighQuality => 1,
        }
    }
}

/// Where the scheduling policy stands between two scheduling points.
#[derive(Clone, Copy, Debug, PartialEq, Eq, Structural)]
pub enum PassState {
    /// The buffer shows a final frame of the current view; nothing is owed.
    Idle,
    /// A drag or zoom gesture is in flight; the buffer shows previews.
    Interacting,
    /// No gesture is in flight and a final frame is owed: the gesture has
    /// just ended, the view changed without a gesture, or no frame was
    /// rendered yet.
    SettlingToHighQuality,
}

impl PassState {
    /// The state that follows `self` when a scheduling point sees the given
    /// flags. A gesture in flight always leads to `Interacting`; the end of
    /// a gesture leaves a final frame owed; an idle view stays idle until
    /// it changes.
    pub open spec fn after_frame(
        self,
        dragging: bool,
        zoom_in_flight: bool,
        view_changed: bool,
    ) -> PassState {
        if dragging || zoom_in_flight {
            PassState::Interacting
        } else {
            match self {
                PassState::Interacting => PassState::SettlingToHighQuality,
                PassState::SettlingToHighQuality => PassState::SettlingToHighQuality,
                PassState::Idle => if view_changed {
                    PassState::SettlingToHighQuality
                } else {
                    PassState::Idle
                },
            }
        }
    }

    /// The pass that this state asks for, if any.
    pub open spec fn wanted(self) -> Option<Fidelity> {
        match self {
            PassState::Idle => None,
            PassState::Interacting => Some(Fidelity::Fast),
            PassState::SettlingToHighQuality => Some(Fidelity::HighQuality),
        }
    }

    /// The state that follows `self` when a pass of the given tier has run
    /// to completion: only a final frame settles the debt.
    pub open spec fn after_pass(self, fidelity: Fidelity) -> PassState {
        if self == PassState::SettlingToHighQuality && fidelity == Fidelity::HighQuality {
            PassState::Idle
        } else {
            self
        }
    }

    /// The state before the first frame: a final frame is owed.
    pub fn initial() -> (state: PassState)
        ensures
            state == PassState::SettlingToHighQuality,
    {
        PassState::SettlingToHighQuality
    }

    /// Takes in the interaction flags of a scheduling point.
    pub fn observe(self, dragging: bool, zoom_in_flight: bool, view_changed: bool) -> (next:
        PassState)
        ensures
            next == self.after_frame(dragging, zoom_in_flight, view_changed),
    {
        if dragging || zoom_in_flight {
            PassState::Interacting
        } else {
            match self {
                PassState::Interacting => PassState::SettlingToHighQuality,
                PassState::SettlingToHighQuality => PassState::SettlingToHighQuality,
                PassState::Idle => if view_changed {
                    PassState::SettlingToHighQuality
                } else {
                    PassState::Idle
                },
            }
        }
    }

    /// The pass to run now, if any.
    pub fn pending(self) -> (pass: Option<Fidelity>)
        ensures
            pass == self.wanted(),
    {
        match self {
            PassState::Idle => None,
            PassState::Interacting => Some(Fidelity::Fast),
            PassState::SettlingToHighQuality => Some(Fidelity::HighQuality),
        }
    }

    /// Records that a pass of the given tier has run to completion.
    pub fn completed(self, fidelity: Fidelity) -> (next: PassState)
        ensures
            next == self.after_pass(fidelity),
    {
        match (self, fidelity) {
            (PassState::SettlingToHighQuality, Fidelity::HighQuality) => PassState::Idle,
            _ => self,
        }
    }
}

/// A preview is scheduled at a scheduling point exactly when a drag or a
/// zoom is in flight there, whatever came before.
pub proof fn lemma_preview_only_while_interacting(
    state: PassState,
    dragging: bool,
    zoom_in_flight: bool,
    view_changed: bool,
)
    ensures
        state.after_frame(dragging, zoom_in_flight, view_changed).wanted() == Some(Fidelity::Fast)
            <==> dragging || zoom_in_flight,
{
}

/// When a gesture ends, one final frame is issued and no further pass
/// follows while the view rests: the first scheduling point without a
/// gesture asks for a final frame, its completion leads to `Idle`, and an
/// idle, unchanged view asks for nothing.
pub proof fn lemma_one_final_frame_after_gesture(view_changed: bool)
    ensures
        ({
            let settling = PassState::Interacting.after_frame(false, false, view_changed);
            let settled = settling.after_pass(Fidelity::HighQuality);
            &&& settling.wanted() == Some(Fidelity::HighQuality)
            &&& settled == PassState::Idle
            &&& settled.after_frame(false, false, false) == PassState::Idle
            &&& settled.after_frame(false, false, false).wanted() == None::<Fidelity>
        }),
{
}

/// A final frame that is owed stays owed until it has been rendered or a
/// new gesture begins: neither a completed preview nor a scheduling point
/// without a gesture cancels it.
pub proof fn lemma_final_frame_stays_owed(fidelity: Fidelity, view_changed: bool)
    ensures
        PassState::SettlingToHighQuality.after_pass(Fidelity::Fast)
            == PassState::SettlingToHighQuality,
        PassState::SettlingToHighQuality.after_frame(false, false, view_changed)
            == PassState::SettlingToHighQuality,
        PassState::Interacting.after_pass(fidelity) == PassState::Interacting,
        PassState::Idle.after_pass(fidelity) == PassState::Idle,
{
}

} // verus!
