use vstd::prelude::*;

use crate::button::{is_down, next_state, state_after, write_of, Button, ButtonState, ButtonView};
use crate::store::FlashWrite;

verus! {

/// What the poll loop is to do after one tick, besides the counter updates
/// that `poll` has already made.
#[derive(Debug, PartialEq, Eq)]
pub enum Action {
    /// Both buttons were pressed on the same tick: store both counters.
    ///
    /// The two writes are separate: a power loss between them leaves one
    /// counter stored and the other stale.
    Save { left: FlashWrite, right: FlashWrite },
    /// Both buttons were released on the same tick.
    BothReleased,
    /// The first button was pressed; its counter went up by one.
    LeftPressed,
    /// The second button was pressed; its counter went up by one.
    RightPressed,
    /// The first button was released.
    LeftReleased,
    /// The second button was released.
    RightReleased,
    /// Nothing to report.
    Nothing,
}

/// A button after one tick: the new state, and one more press counted when
/// that state is `JustPressed`.
pub open spec fn tick(b: ButtonView, is_high: bool) -> ButtonView {
    let s = next_state(b.state, is_high);
    ButtonView {
        state: s,
        count: if s is JustPressed {
            (b.count + 1) as u32
        } else {
            b.count
        },
        ..b
    }
}

/// Whether the counter of `b` has room for the press that a tick at level
/// `is_high` may count.
pub open spec fn tick_fits(b: ButtonView, is_high: bool) -> bool {
    next_state(b.state, is_high) is JustPressed ==> b.count < u32::MAX
}

/// The action that the pair of states after a tick calls for, the first
/// matching row winning.
pub open spec fn action_for(a: Action, l: ButtonView, r: ButtonView) -> bool {
    match (l.state, r.state) {
        (ButtonState::JustPressed, ButtonState::JustPressed) => a matches Action::Save {
            left,
            right,
        } && left@ == write_of(l) && right@ == write_of(r),
        (ButtonState::JustReleased, ButtonState::JustReleased) => a is BothReleased,
        (ButtonState::JustPressed, _) => a is LeftPressed,
        (_, ButtonState::JustPressed) => a is RightPressed,
        (ButtonState::JustReleased, _) => a is LeftReleased,
        (_, ButtonState::JustReleased) => a is RightReleased,
        _ => a is Nothing,
    }
}

/// A button after ticks at the first `n` levels of `levels`.
pub open spec fn after(b: ButtonView, levels: Seq<bool>, n: nat) -> ButtonView
    decreases n,
{
    if n == 0 {
        b
    } else {
        tick(after(b, levels, (n - 1) as nat), levels[n - 1])
    }
}

/// The number of maximal runs of low levels that begin within the first `n`
/// levels of `levels`; a run already under way at the start (`was_down`) is
/// not counted.
pub open spec fn press_starts(was_down: bool, levels: Seq<bool>, n: nat) -> nat
    decreases n,
{
    if n == 0 {
        0
    } else {
        let prev_down = if n == 1 {
            was_down
        } else {
            !levels[n - 2]
        };
        press_starts(was_down, levels, (n - 1) as nat) + if !levels[n - 1] && !prev_down {
            1nat
        } else {
            0nat
        }
    }
}

proof fn lemma_counts_upto(b: ButtonView, levels: Seq<bool>, n: nat)
    requires
        n <= levels.len(),
        b.count + n <= u32::MAX,
    ensures
        after(b, levels, n).count == b.count + press_starts(is_down(b.state), levels, n),
        after(b, levels, n).state == state_after(b.state, levels, n),
        press_starts(is_down(b.state), levels, n) <= n,
        n > 0 ==> is_down(after(b, levels, n).state) == !levels[n - 1],
    decreases n,
{
    if n > 0 {
        lemma_counts_upto(b, levels, (n - 1) as nat);
    }
}

/// A button's counter goes up by exactly one for each maximal run of low
/// (pressed) levels, however long the run lasts.
pub proof fn lemma_counter_counts_presses(b: ButtonView, levels: Seq<bool>)
    requires
        b.count + levels.len() <= u32::MAX,
    ensures
        after(b, levels, levels.len()).count == b.count + press_starts(
            is_down(b.state),
            levels,
            levels.len(),
        ),
{
    lemma_counts_upto(b, levels, levels.len());
}

/// One tick of the poll loop, given the levels just sampled on both lines.
///
/// Each button's edge detector takes its sample, each button that is now
/// `JustPressed` counts one press, and the returned action says what else is
/// due. A press of both on the same tick counts on both and asks for both
/// counters to be stored, with their new values.
pub fn poll(left: &mut Button, right: &mut Button, left_high: bool, right_high: bool) -> (a:
    Action)
    requires
        tick_fits(old(left)@, left_high),
        tick_fits(old(right)@, right_high),
    ensures
        final(left)@ == tick(old(left)@, left_high),
        final(right)@ == tick(old(right)@, right_high),
        action_for(a, final(left)@, final(right)@),
{
    left.update(left_high);
    right.update(right_high);
    match (left.state(), right.state()) {
        (ButtonState::JustPressed, ButtonState::JustPressed) => {
            left.increment();
            right.increment();
            Action::Save { left: left.write(), right: right.write() }
        },
        (ButtonState::JustReleased, ButtonState::JustReleased) => Action::BothReleased,
        (ButtonState::JustPressed, _) => {
            left.increment();
            Action::LeftPressed
        },
        (_, ButtonState::JustPressed) => {
            right.increment();
            Action::RightPressed
        },
        (ButtonState::JustReleased, _) => Action::LeftReleased,
        (_, ButtonState::JustReleased) => Action::RightReleased,
        _ => Action::Nothing,
    }
}

} // verus!
