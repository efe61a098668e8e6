use vstd::prelude::*;

use crate::store::{
    apply_write, decode_le, encode_le, le_bytes, le_value, lemma_le_round_trip, FlashWrite,
    FlashWriteView,
};

verus! {

/// Debounced state of one push-button.
///
/// `JustPressed` and `JustReleased` hold for exactly one poll tick: the tick on
/// which the change of level was first seen.
#[derive(Debug, Clone, Copy, PartialEq, Eq, Structural)]
pub enum ButtonState {
    Pressed,
    JustPressed,
    Released,
    JustReleased,
}

/// Whether a state stands for a button that is held down.
pub open spec fn is_down(s: ButtonState) -> bool {
    s is Pressed || s is JustPressed
}

/// The transition table of the edge detector.
///
/// The input is active-low: `is_high` means the button is not pressed (the
/// line is pulled up and the button shorts it to ground).
pub open spec fn next_state(s: ButtonState, is_high: bool) -> ButtonState {
    if is_high {
        if is_down(s) { ButtonState::JustReleased } else { ButtonState::Released }
    } else {
        if is_down(s) { ButtonState::Pressed } else { ButtonState::JustPressed }
    }
}

/// One physical button: its debounced state, its press counter and the flash
/// offset where that counter is kept.
pub struct Button {
    pin: u8,
    flash_offset: u32,
    state: ButtonState,
    count: u32,
}

/// The abstract value of a `Button`.
pub struct ButtonView {
    pub pin: u8,
    pub flash_offset: u32,
    pub state: ButtonState,
    pub count: u32,
}

impl View for Button {
    type V = ButtonView;

    closed spec fn view(&self) -> ButtonView {
        ButtonView {
            pin: self.pin,
            flash_offset: self.flash_offset,
            state: self.state,
            count: self.count,
        }
    }
}

impl Button {
    pub fn new(pin: u8, flash_offset: u32) -> (b: Self)
        ensures
            b@ == (ButtonView { pin, flash_offset, state: ButtonState::Released, count: 0 }),
    {
        Button { pin, flash_offset, state: ButtonState::Released, count: 0 }
    }

    /// The current debounced state.
    pub fn state(&self) -> (r: ButtonState)
        ensures
            r == self@.state,
    {
        self.state
    }

    /// Feeds one sample of the line's level to the edge detector.
    ///
    /// There is no filtering in time: the caller's fixed poll period is the
    /// whole debounce window, so a bounce shorter than one period can still
    /// show up as an extra pair of transitions.
    pub fn update(&mut self, is_high: bool)
        ensures
            final(self)@ == (ButtonView { state: next_state(old(self)@.state, is_high), ..old(self)@ }),
    {
        self.state = match is_high {
            true => match self.state {
                ButtonState::Pressed | ButtonState::JustPressed => ButtonState::JustReleased,
                ButtonState::Released | ButtonState::JustReleased => ButtonState::Released,
            },
            false => match self.state {
                ButtonState::Pressed | ButtonState::JustPressed => ButtonState::Pressed,
                ButtonState::Released | ButtonState::JustReleased => ButtonState::JustPressed,
            },
        };
    }

    /// The number of presses counted so far.
    pub fn count(&self) -> (r: u32)
        ensures
            r == self@.count,
    {
        self.count
    }

    /// Counts one more press.
    pub fn increment(&mut self)
        requires
            old(self)@.count < u32::MAX,
        ensures
            final(self)@ == (ButtonView { count: (old(self)@.count + 1) as u32, ..old(self)@ }),
    {
        self.count += 1;
    }

    /// The flash write that stores the counter at this button's offset.
    pub fn write(&self) -> (r: FlashWrite)
        ensures
            r@ == write_of(self@),
    {
        FlashWrite { offset: self.flash_offset, bytes: encode_le(self.count) }
    }

    /// Loads the counter from the four bytes read at this button's offset.
    pub fn read(&mut self, data: [u8; 4])
        ensures
            final(self)@ == (ButtonView { count: le_value(data@) as u32, ..old(self)@ }),
    {
        self.count = decode_le(data);
    }
}

/// The detector's state after the first `n` samples of `levels`, starting
/// from `s`.
pub open spec fn state_after(s: ButtonState, levels: Seq<bool>, n: nat) -> ButtonState
    decreases n,
{
    if n == 0 {
        s
    } else {
        next_state(state_after(s, levels, (n - 1) as nat), levels[n - 1])
    }
}

/// Once down, the button stays down until a `JustReleased`, and it is
/// `Pressed` at every sample after the first.
proof fn lemma_stays_down(s: ButtonState, levels: Seq<bool>, i: nat, m: nat)
    requires
        i <= m <= levels.len(),
        is_down(state_after(s, levels, i)),
        forall|k: nat| i < k <= m ==> !(#[trigger] state_after(s, levels, k) is JustReleased),
    ensures
        is_down(state_after(s, levels, m)),
        m > i ==> state_after(s, levels, m) is Pressed,
    decreases m - i,
{
    if m > i {
        lemma_stays_down(s, levels, i, (m - 1) as nat);
    }
}

/// Once up, the button stays up until a `JustPressed`, and it is `Released`
/// at every sample after the first.
proof fn lemma_stays_up(s: ButtonState, levels: Seq<bool>, i: nat, m: nat)
    requires
        i <= m <= levels.len(),
        !is_down(state_after(s, levels, i)),
        forall|k: nat| i < k <= m ==> !(#[trigger] state_after(s, levels, k) is JustPressed),
    ensures
        !is_down(state_after(s, levels, m)),
        m > i ==> state_after(s, levels, m) is Released,
    decreases m - i,
{
    if m > i {
        lemma_stays_up(s, levels, i, (m - 1) as nat);
    }
}

/// Between two `JustPressed` states of one detector there is always a
/// `JustReleased`; in particular it is never `JustPressed` on two samples in
/// a row, however the levels go.
pub proof fn lemma_just_pressed_separated(s: ButtonState, levels: Seq<bool>, i: nat, j: nat)
    requires
        i < j <= levels.len(),
        state_after(s, levels, i) is JustPressed,
        state_after(s, levels, j) is JustPressed,
    ensures
        exists|k: nat| i < k < j && #[trigger] state_after(s, levels, k) is JustReleased,
{
    if !(exists|k: nat| i < k < j && #[trigger] state_after(s, levels, k) is JustReleased) {
        assert forall|k: nat| i < k <= j implies !(#[trigger] state_after(
            s,
            levels,
            k,
        ) is JustReleased) by {
            if k < j {
            }
        }
        lemma_stays_down(s, levels, i, j);
    }
}

/// Between two `JustReleased` states of one detector there is always a
/// `JustPressed`; in particular it is never `JustReleased` on two samples in
/// a row, however the levels go.
pub proof fn lemma_just_released_separated(s: ButtonState, levels: Seq<bool>, i: nat, j: nat)
    requires
        i < j <= levels.len(),
        state_after(s, levels, i) is JustReleased,
        state_after(s, levels, j) is JustReleased,
    ensures
        exists|k: nat| i < k < j && #[trigger] state_after(s, levels, k) is JustPressed,
{
    if !(exists|k: nat| i < k < j && #[trigger] state_after(s, levels, k) is JustPressed) {
        assert forall|k: nat| i < k <= j implies !(#[trigger] state_after(
            s,
            levels,
            k,
        ) is JustPressed) by {
            if k < j {
            }
        }
        lemma_stays_up(s, levels, i, j);
    }
}

/// The flash write that stores the counter of `b`.
pub open spec fn write_of(b: ButtonView) -> FlashWriteView {
    FlashWriteView { offset: b.flash_offset, bytes: le_bytes(b.count) }
}

/// Reading a counter back after writing it gives the same value, whatever the
/// device held before.
pub proof fn lemma_write_read_round_trip(b: ButtonView, dev: Seq<u8>)
    requires
        b.flash_offset + 4 <= dev.len(),
    ensures
        le_value(
            apply_write(dev, write_of(b)).subrange(b.flash_offset as int, b.flash_offset + 4),
        ) == b.count,
{
    lemma_le_round_trip(b.count);
    assert(apply_write(dev, write_of(b)).subrange(b.flash_offset as int, b.flash_offset + 4)
        =~= le_bytes(b.count));
}

} // verus!
