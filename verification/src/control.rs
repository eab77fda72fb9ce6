//! The equaliser's control state: channel layout and coefficient bookkeeping.
//!
//! Each band (the low shelf and the high shelf) keeps the gain for which its
//! filter coefficients were last computed. Computing coefficients is costly
//! (it takes a tangent and a power), so a band's coefficients are recomputed
//! only on a sample whose smoothed gain differs, as an `f32`, from that gain.
//! Before any coefficients exist, and after a reset, the remembered gain is
//! the sentinel `f32::MAX`, which no gain parameter takes, so that the first
//! sample recomputes both bands (a gain of exactly `f32::MAX` would not be).

use vstd::prelude::*;
use crate::float_bits::{
    F32_MAX_BITS,
    same_value,
    is_nan,
    f32_bits_equal,
    lemma_same_value_laws,
    lemma_same_value_as_max,
    lemma_same_value_characterized,
};

verus! {

/// Channel count used when the host reports no main input channels.
pub const DEFAULT_CHANNELS: usize = 2;

/// The number of channels that get a filter pair for a main input layout of
/// `main_input_channels` channels, or none.
pub open spec fn spec_channel_count(main_input_channels: Option<u32>) -> nat {
    match main_input_channels {
        Some(c) => c as nat,
        None => DEFAULT_CHANNELS as nat,
    }
}

/// Number of channels to give a filter pair, from the host's main input
/// channel count (`None` when the layout has no main input).
pub fn channel_count(main_input_channels: Option<u32>) -> (n: usize)
    ensures
        n == spec_channel_count(main_input_channels),
{
    match main_input_channels {
        Some(c) => c as usize,
        None => DEFAULT_CHANNELS,
    }
}

/// The abstract state of an [`EqControl`].
pub struct ControlState {
    /// Channels that have a low-shelf and a high-shelf filter.
    pub num_channels: nat,
    /// Bit pattern of the gain (dB) at the last recomputation of the
    /// low-shelf coefficients, or the `f32::MAX` sentinel when none has
    /// happened since the last initialisation or reset.
    pub applied_lows: u32,
    /// Bit pattern of the gain (dB) at the last recomputation of the
    /// high-shelf coefficients, or the `f32::MAX` sentinel when none has
    /// happened since the last initialisation or reset.
    pub applied_highs: u32,
}

/// A band must recompute its coefficients when the current gain is not equal,
/// as an `f32`, to the remembered gain (that of its last recomputation, or
/// the `f32::MAX` sentinel).
pub open spec fn needs_update(applied: u32, current: u32) -> bool {
    !same_value(current, applied)
}

impl ControlState {
    /// The state after (re)initialisation for `num_channels` channels: no
    /// coefficients have been computed.
    pub open spec fn initial(num_channels: nat) -> ControlState {
        ControlState { num_channels, applied_lows: F32_MAX_BITS, applied_highs: F32_MAX_BITS }
    }

    /// The state after a reset: the channel layout stays, the coefficients
    /// are forgotten.
    pub open spec fn after_reset(self) -> ControlState {
        ControlState {
            num_channels: self.num_channels,
            applied_lows: F32_MAX_BITS,
            applied_highs: F32_MAX_BITS,
        }
    }

    /// The state after a sample whose smoothed gains are `lows` and `highs`.
    pub open spec fn after_sample(self, lows: u32, highs: u32) -> ControlState {
        ControlState {
            num_channels: self.num_channels,
            applied_lows: if needs_update(self.applied_lows, lows) {
                lows
            } else {
                self.applied_lows
            },
            applied_highs: if needs_update(self.applied_highs, highs) {
                highs
            } else {
                self.applied_highs
            },
        }
    }

    /// How many channels of a frame of `buffer_channels` channels are
    /// filtered: those that have filters, in order, up to the frame's width.
    pub open spec fn channels_for(self, buffer_channels: nat) -> nat {
        if buffer_channels < self.num_channels {
            buffer_channels
        } else {
            self.num_channels
        }
    }
}

/// What to do for one sample frame.
#[derive(Clone, Copy, Debug, PartialEq, Eq, Structural)]
pub struct SampleAction {
    /// Recompute the low-shelf coefficients for the current low gain and
    /// give them to every low-shelf filter.
    pub update_lows: bool,
    /// Recompute the high-shelf coefficients for the current high gain and
    /// give them to every high-shelf filter.
    pub update_highs: bool,
    /// Run the first `channels` channels of the frame through their low
    /// shelf, then their high shelf; leave the others as they are.
    pub channels: usize,
}

/// Channel layout and coefficient bookkeeping of the equaliser.
pub struct EqControl {
    num_channels: usize,
    applied_lows: u32,
    applied_highs: u32,
}

impl View for EqControl {
    type V = ControlState;

    closed spec fn view(&self) -> ControlState {
        ControlState {
            num_channels: self.num_channels as nat,
            applied_lows: self.applied_lows,
            applied_highs: self.applied_highs,
        }
    }
}

impl Default for EqControl {
    /// Two channels, no coefficients computed yet.
    fn default() -> (s: Self)
        ensures
            s@ == ControlState::initial(DEFAULT_CHANNELS as nat),
    {
        EqControl {
            num_channels: DEFAULT_CHANNELS,
            applied_lows: F32_MAX_BITS,
            applied_highs: F32_MAX_BITS,
        }
    }
}

impl EqControl {
    /// Number of channels that have a filter pair.
    pub fn num_channels(&self) -> (n: usize)
        ensures
            n == self@.num_channels,
    {
        self.num_channels
    }

    /// Prepares for processing with the host's main input channel count
    /// (`None` when the layout has none); always accepts the layout.
    pub fn initialize(&mut self, main_input_channels: Option<u32>) -> (accepted: bool)
        ensures
            accepted,
            final(self)@ == ControlState::initial(spec_channel_count(main_input_channels)),
    {
        self.num_channels = channel_count(main_input_channels);
        self.applied_lows = F32_MAX_BITS;
        self.applied_highs = F32_MAX_BITS;
        true
    }

    /// Forgets the computed coefficients, so that the next sample recomputes
    /// both bands.
    pub fn reset(&mut self)
        ensures
            final(self)@ == old(self)@.after_reset(),
    {
        self.applied_lows = F32_MAX_BITS;
        self.applied_highs = F32_MAX_BITS;
    }

    /// Decides what to do for a sample frame of `buffer_channels` channels
    /// whose smoothed gains (dB) have the bit patterns `lows_db_bits` and
    /// `highs_db_bits`, and records the gains whose coefficients are then in
    /// use.
    pub fn next_sample(&mut self, lows_db_bits: u32, highs_db_bits: u32, buffer_channels: usize) -> (action: SampleAction)
        ensures
            action.update_lows == needs_update(old(self)@.applied_lows, lows_db_bits),
            action.update_highs == needs_update(old(self)@.applied_highs, highs_db_bits),
            action.channels == old(self)@.channels_for(buffer_channels as nat),
            // every channel of the frame that has a filter pair is filtered, and no other
            action.channels <= buffer_channels,
            action.channels <= old(self)@.num_channels,
            action.channels >= old(self)@.num_channels || action.channels >= buffer_channels,
            final(self)@ == old(self)@.after_sample(lows_db_bits, highs_db_bits),
            // after the sample, the remembered gain equals the current one
            !is_nan(lows_db_bits) ==> same_value(final(self)@.applied_lows, lows_db_bits),
            !is_nan(highs_db_bits) ==> same_value(final(self)@.applied_highs, highs_db_bits),
    {
        proof {
            lemma_same_value_laws(lows_db_bits, self.applied_lows);
            lemma_same_value_laws(highs_db_bits, self.applied_highs);
        }
        let update_lows = !f32_bits_equal(lows_db_bits, self.applied_lows);
        if update_lows {
            self.applied_lows = lows_db_bits;
        }
        let update_highs = !f32_bits_equal(highs_db_bits, self.applied_highs);
        if update_highs {
            self.applied_highs = highs_db_bits;
        }
        let channels = if buffer_channels < self.num_channels {
            buffer_channels
        } else {
            self.num_channels
        };
        SampleAction { update_lows, update_highs, channels }
    }
}

/// A gain that stays the same costs no recomputation: after a sample with
/// gains `lows` and `highs` (neither NaN), a further sample with the same
/// gains updates neither band and leaves the state as it is.
pub proof fn lemma_steady_gain_needs_no_update(s: ControlState, lows: u32, highs: u32)
    requires
        !is_nan(lows),
        !is_nan(highs),
    ensures
        !needs_update(s.after_sample(lows, highs).applied_lows, lows),
        !needs_update(s.after_sample(lows, highs).applied_highs, highs),
        s.after_sample(lows, highs).after_sample(lows, highs) == s.after_sample(lows, highs),
{
    lemma_same_value_laws(lows, s.applied_lows);
    lemma_same_value_laws(highs, s.applied_highs);
}

/// After a reset, and after (re)initialisation, the next sample recomputes
/// each band for every gain other than `f32::MAX`.
pub proof fn lemma_fresh_state_forces_update(s: ControlState, num_channels: nat, lows: u32, highs: u32)
    ensures
        needs_update(s.after_reset().applied_lows, lows) <==> lows != F32_MAX_BITS,
        needs_update(s.after_reset().applied_highs, highs) <==> highs != F32_MAX_BITS,
        needs_update(ControlState::initial(num_channels).applied_lows, lows) <==> lows != F32_MAX_BITS,
        needs_update(ControlState::initial(num_channels).applied_highs, highs) <==> highs
            != F32_MAX_BITS,
{
    lemma_same_value_as_max(lows);
    lemma_same_value_as_max(highs);
}

/// A band is recomputed exactly when its gain changed as an `f32`: when the
/// current or the remembered gain is a NaN (its pattern, sign bit cleared,
/// lies above that of infinity), or when their patterns differ and are not
/// both zeros.
pub proof fn lemma_needs_update_characterized(applied: u32, current: u32)
    ensures
        needs_update(applied, current) <==> ((current & 0x7fff_ffffu32) > 0x7f80_0000u32 || (applied
            & 0x7fff_ffffu32) > 0x7f80_0000u32 || (current != applied && !((current & 0x7fff_ffffu32)
            == 0 && (applied & 0x7fff_ffffu32) == 0))),
{
    lemma_same_value_characterized(current, applied);
}

/// The filtered channels of a frame are exactly those that have a filter
/// pair: no more channels are filtered than have filters or than the frame
/// holds, and the count reaches one of the two, so that every channel index
/// below both the number of filter pairs and the frame width is filtered.
pub proof fn lemma_filtered_channels_are_those_with_filters(s: ControlState, buffer_channels: nat)
    ensures
        s.channels_for(buffer_channels) <= s.num_channels,
        s.channels_for(buffer_channels) <= buffer_channels,
        s.channels_for(buffer_channels) >= s.num_channels || s.channels_for(buffer_channels)
            >= buffer_channels,
{
}

/// Neither a reset nor a sample changes the channel layout, and a sample
/// never asks for more channels than have filters or than the frame holds.
pub proof fn lemma_channel_layout_is_kept(s: ControlState, lows: u32, highs: u32, buffer_channels: nat)
    ensures
        s.after_reset().num_channels == s.num_channels,
        s.after_sample(lows, highs).num_channels == s.num_channels,
        s.channels_for(buffer_channels) <= s.num_channels,
        s.channels_for(buffer_channels) <= buffer_channels,
{
}

/// One of the two bands.
pub enum Band {
    Lows,
    Highs,
}

/// A call that changes the control state: `initialize` with a main input
/// channel count, `reset`, or `next_sample` with the bit patterns of the
/// smoothed low and high gains (the frame width does not change the state).
pub enum ControlEvent {
    Initialize(Option<u32>),
    Reset,
    Sample(u32, u32),
}

impl ControlState {
    /// The remembered gain of `band`.
    pub open spec fn applied(self, band: Band) -> u32 {
        match band {
            Band::Lows => self.applied_lows,
            Band::Highs => self.applied_highs,
        }
    }

    /// The state after `event`, as the `ensures` of `initialize`, `reset`
    /// and `next_sample` give it.
    pub open spec fn step(self, event: ControlEvent) -> ControlState {
        match event {
            ControlEvent::Initialize(main_input_channels) => ControlState::initial(
                spec_channel_count(main_input_channels),
            ),
            ControlEvent::Reset => self.after_reset(),
            ControlEvent::Sample(lows, highs) => self.after_sample(lows, highs),
        }
    }

    /// The state after the events in order.
    pub open spec fn run(self, events: Seq<ControlEvent>) -> ControlState
        decreases events.len(),
    {
        if events.len() == 0 {
            self
        } else {
            self.run(events.drop_last()).step(events.last())
        }
    }
}

/// The gain of `band` that a sample event carries; `None` for other events.
pub open spec fn sample_gain(event: ControlEvent, band: Band) -> Option<u32> {
    match event {
        ControlEvent::Sample(lows, highs) => Some(
            match band {
                Band::Lows => lows,
                Band::Highs => highs,
            },
        ),
        _ => None,
    }
}

/// Event `i` of `events`, run from `s`, is a sample that asks to recompute
/// `band` with the gain `gain`.
pub open spec fn recomputes_at(s: ControlState, events: Seq<ControlEvent>, i: int, band: Band, gain: u32) -> bool {
    &&& sample_gain(events[i], band) == Some(gain)
    &&& needs_update(s.run(events.take(i)).applied(band), gain)
}

/// Event `j` of `events`, run from `s`, is a sample that leaves `band`'s
/// coefficients as they are.
pub open spec fn keeps_at(s: ControlState, events: Seq<ControlEvent>, j: int, band: Band) -> bool {
    &&& sample_gain(events[j], band) is Some
    &&& !needs_update(s.run(events.take(j)).applied(band), sample_gain(events[j], band)->0)
}

/// The remembered gain belongs to the coefficients in use: from a freshly
/// initialised state, after any sequence of initialisations, resets and
/// samples, a band whose remembered gain is not the `f32::MAX` sentinel had
/// its coefficients last recomputed, by a sample that asked for it with
/// exactly that gain, after which only samples came that kept them.
pub proof fn lemma_applied_gain_is_last_recomputation(
    num_channels: nat,
    events: Seq<ControlEvent>,
    band: Band,
)
    ensures
        ({
            let s = ControlState::initial(num_channels);
            let gain = s.run(events).applied(band);
            gain != F32_MAX_BITS ==> exists|i: int|
                0 <= i < events.len() && #[trigger] recomputes_at(s, events, i, band, gain) && (
                forall|j: int| i < j < events.len() ==> #[trigger] keeps_at(s, events, j, band))
        }),
    decreases events.len(),
{
    let s = ControlState::initial(num_channels);
    if events.len() > 0 {
        let n = events.len() - 1;
        let prefix = events.drop_last();
        let before = s.run(prefix);
        let gain = s.run(events).applied(band);
        assert(events.take(n) =~= prefix);
        assert forall|k: int| 0 <= k <= n implies #[trigger] events.take(k) == prefix.take(k) by {
            assert(events.take(k) =~= prefix.take(k));
        }
        if gain != F32_MAX_BITS {
            match events.last() {
                ControlEvent::Sample(lows, highs) => {
                    let g = sample_gain(events.last(), band)->0;
                    if needs_update(before.applied(band), g) {
                        assert(recomputes_at(s, events, n, band, gain));
                    } else {
                        lemma_applied_gain_is_last_recomputation(num_channels, prefix, band);
                        let i = choose|i: int|
                            0 <= i < prefix.len() && #[trigger] recomputes_at(s, prefix, i, band, gain)
                                && (forall|j: int| i < j < prefix.len() ==> #[trigger] keeps_at(s, prefix, j, band));
                        assert(recomputes_at(s, events, i, band, gain));
                        assert forall|j: int| i < j < events.len() implies #[trigger] keeps_at(s, events, j, band) by {
                            if j < n {
                                assert(keeps_at(s, prefix, j, band));
                            }
                        }
                    }
                },
                _ => {},
            }
        }
    }
}

} // verus!
