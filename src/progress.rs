//! The loading animation shown while a command is being served.
//!
//! It is a fixed schedule: one initial message, then four in-place edits
//! through the frames, each followed by a one-second pause. The schedule
//! takes no input, so it runs the same whatever happens to the fetch that
//! it accompanies.

use vstd::prelude::*;
use crate::reply::Accent;

verus! {

/// The number of actions in the whole schedule.
pub const ANIMATION_STEPS: usize = 9;

/// The text of the message first sent.
pub const INITIAL_TEXT: &'static str = "Loading...";

/// One thing the chat layer is asked to do.
#[derive(PartialEq, Eq, Clone, Copy, Debug)]
pub enum AnimationAction {
    /// Send the loading message to the channel, keeping a handle to it.
    Send { text: &'static str, accent: Accent },
    /// Replace the loading message's text in place.
    Edit { text: &'static str },
    /// Pause before the next action.
    Wait { seconds: u64 },
}

/// The text of frame `i`.
pub open spec fn frame_text(i: nat) -> Seq<char> {
    if i == 0 {
        "Loading."@
    } else if i == 1 {
        "Loading.."@
    } else if i == 2 {
        "Loading..."@
    } else {
        "Loading...."@
    }
}

/// Whether step `k` of the schedule is an edit.
pub open spec fn is_edit_step(k: nat) -> bool {
    k < ANIMATION_STEPS && k % 2 == 1
}

/// Whether step `k` of the schedule is a pause.
pub open spec fn is_wait_step(k: nat) -> bool {
    0 < k && k < ANIMATION_STEPS && k % 2 == 0
}

/// Whether `a` is what the schedule does at step `k`: the initial send, an
/// edit to frame `(k - 1) / 2`, a one-second pause, or nothing once done.
pub open spec fn scheduled(k: nat, a: Option<AnimationAction>) -> bool {
    if k == 0 {
        a matches Some(AnimationAction::Send { text, accent }) && text@ == "Loading..."@ && accent
            == Accent::DarkBlue
    } else if is_edit_step(k) {
        a matches Some(AnimationAction::Edit { text }) && text@ == frame_text(((k - 1) / 2) as nat)
    } else if is_wait_step(k) {
        a == Some(AnimationAction::Wait { seconds: 1 })
    } else {
        a is None
    }
}

/// The number of edits among the first `n` steps.
pub open spec fn edits_before(n: nat) -> nat
    decreases n,
{
    if n == 0 {
        0
    } else {
        edits_before((n - 1) as nat) + if is_edit_step((n - 1) as nat) {
            1nat
        } else {
            0nat
        }
    }
}

/// Where an animation stands in its schedule.
pub struct LoadingAnimation {
    step: usize,
}

impl View for LoadingAnimation {
    type V = nat;

    /// The number of steps already handed out.
    closed spec fn view(&self) -> nat {
        self.step as nat
    }
}

impl LoadingAnimation {
    /// An animation that has not started.
    pub fn new() -> (r: LoadingAnimation)
        ensures
            r@ == 0,
    {
        LoadingAnimation { step: 0 }
    }

    /// Whether the whole schedule has been handed out.
    pub fn is_done(&self) -> (r: bool)
        ensures
            r == (self@ >= ANIMATION_STEPS),
    {
        self.step >= ANIMATION_STEPS
    }

    /// Hands out the next action of the schedule, or `None` once done.
    pub fn next(&mut self) -> (r: Option<AnimationAction>)
        ensures
            scheduled(old(self)@, r),
            final(self)@ == if old(self)@ < ANIMATION_STEPS {
                old(self)@ + 1
            } else {
                old(self)@
            },
    {
        let k = self.step;
        if k >= ANIMATION_STEPS {
            return None;
        }
        self.step = k + 1;
        if k == 0 {
            Some(AnimationAction::Send { text: INITIAL_TEXT, accent: Accent::DarkBlue })
        } else if k % 2 == 1 {
            let text = if k == 1 {
                "Loading."
            } else if k == 3 {
                "Loading.."
            } else if k == 5 {
                "Loading..."
            } else {
                "Loading...."
            };
            Some(AnimationAction::Edit { text })
        } else {
            Some(AnimationAction::Wait { seconds: 1 })
        }
    }
}

/// Once started, the animation sends one message, then performs exactly
/// four edits, each followed by a one-second pause before anything else
/// happens, and then does nothing more.
pub proof fn lemma_four_edits_one_second_apart()
    ensures
        edits_before(ANIMATION_STEPS as nat) == 4,
        forall|k: nat| #[trigger] is_edit_step(k) ==> is_wait_step(k + 1),
        forall|k: nat, a: Option<AnimationAction>| #[trigger] scheduled(k, a) && is_wait_step(k) ==> a
            == Some(AnimationAction::Wait { seconds: 1 }),
        forall|k: nat, a: Option<AnimationAction>|
            k >= ANIMATION_STEPS && #[trigger] scheduled(k, a) ==> a is None,
{
    reveal_with_fuel(edits_before, 10);
}

} // verus!
