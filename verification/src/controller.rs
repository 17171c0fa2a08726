//! The DualSense side: what its input reports say, what output reports are
//! sent back, and the listener that drives both.

pub mod device;
pub mod handler;
pub mod input;
pub mod laws;
pub mod listener;
pub mod notes;
pub mod output;
pub mod pause;
pub mod promises;
pub mod restore;
pub mod runs;
pub mod session;
pub mod step;

use vstd::prelude::*;

verus! {

/// A parsed DualSense battery reading, from the same input reports the mic
/// button rides in.
#[derive(Debug, Clone, Copy, PartialEq, Eq, Structural)]
pub struct Battery {
    /// Charge level, 0-100. The controller only reports in ~10% steps, so this
    /// is coarse by nature rather than by rounding.
    pub percent: u8,
    pub state: ChargeState,
}

#[derive(Debug, Clone, Copy, PartialEq, Eq, Structural)]
pub enum ChargeState {
    Discharging,
    Charging,
    /// On the cable and done charging.
    Full,
    /// The controller reported a charging error or an out-of-range
    /// temperature/voltage; the level, if any, is not trustworthy.
    Unknown,
}

impl ChargeState {
    /// What `label` returns.
    pub open spec fn spec_label(self) -> Seq<char> {
        match self {
            ChargeState::Discharging => "discharging"@,
            ChargeState::Charging => "charging"@,
            ChargeState::Full => "full"@,
            ChargeState::Unknown => "unknown"@,
        }
    }

    /// The wire/label form used by the API and UI.
    pub fn label(self) -> (r: &'static str)
        ensures
            r@ == self.spec_label(),
    {
        match self {
            ChargeState::Discharging => "discharging",
            ChargeState::Charging => "charging",
            ChargeState::Full => "full",
            ChargeState::Unknown => "unknown",
        }
    }
}

/// Lightbar colours mirroring voice state. Kept moderate so the bar reads as a
/// clear status light rather than a distraction. Green live, red muted, amber
/// deafened.
pub const LIGHTBAR_LIVE: (u8, u8, u8) = (0, 80, 24);

pub const LIGHTBAR_MUTED: (u8, u8, u8) = (130, 0, 0);

pub const LIGHTBAR_DEAFENED: (u8, u8, u8) = (140, 40, 0);

/// How the app's voice state is mirrored onto the controller's mic LED and
/// lightbar. Deafen outranks mute, since deafening implies muting.
#[derive(Debug, Clone, Copy, PartialEq, Eq, Structural)]
pub enum VoiceState {
    Live,
    Muted,
    Deafened,
}

impl VoiceState {
    /// What `mic_led_on` returns.
    pub open spec fn spec_mic_led_on(self) -> bool {
        self != VoiceState::Live
    }

    /// The mic-mute LED is lit whenever you can't be heard.
    pub fn mic_led_on(self) -> (r: bool)
        ensures
            r == self.spec_mic_led_on(),
    {
        !matches!(self, VoiceState::Live)
    }

    /// What `lightbar` returns.
    pub open spec fn spec_lightbar(self) -> (u8, u8, u8) {
        match self {
            VoiceState::Live => LIGHTBAR_LIVE,
            VoiceState::Muted => LIGHTBAR_MUTED,
            VoiceState::Deafened => LIGHTBAR_DEAFENED,
        }
    }

    /// Lightbar colour for this state.
    pub fn lightbar(self) -> (r: (u8, u8, u8))
        ensures
            r == self.spec_lightbar(),
    {
        match self {
            VoiceState::Live => LIGHTBAR_LIVE,
            VoiceState::Muted => LIGHTBAR_MUTED,
            VoiceState::Deafened => LIGHTBAR_DEAFENED,
        }
    }

    /// The state that a pair of self-mute and self-deafen flags amounts to.
    pub open spec fn spec_from_flags(mute: bool, deaf: bool) -> VoiceState {
        if deaf {
            VoiceState::Deafened
        } else if mute {
            VoiceState::Muted
        } else {
            VoiceState::Live
        }
    }

    /// Folds Discord's mute and deafen flags into one state.
    pub fn from_flags(mute: bool, deaf: bool) -> (r: VoiceState)
        ensures
            r == VoiceState::spec_from_flags(mute, deaf),
    {
        if deaf {
            VoiceState::Deafened
        } else if mute {
            VoiceState::Muted
        } else {
            VoiceState::Live
        }
    }
}

/// Deafening outranks muting, and without either one is live. The LED is lit
/// whenever one cannot be heard, and no two states share a colour.
pub proof fn law_voice_states(mute: bool, deaf: bool, a: VoiceState, b: VoiceState)
    ensures
        deaf ==> VoiceState::spec_from_flags(mute, deaf) == VoiceState::Deafened,
        !deaf && mute ==> VoiceState::spec_from_flags(mute, deaf) == VoiceState::Muted,
        !deaf && !mute ==> VoiceState::spec_from_flags(mute, deaf) == VoiceState::Live,
        VoiceState::spec_from_flags(mute, deaf).spec_mic_led_on() <==> mute || deaf,
        a != b ==> a.spec_lightbar() != b.spec_lightbar(),
        VoiceState::Live.spec_lightbar() == (0u8, 80u8, 24u8),
        VoiceState::Muted.spec_lightbar() == (130u8, 0u8, 0u8),
        VoiceState::Deafened.spec_lightbar() == (140u8, 40u8, 0u8),
{
}

/// Each charging state has its label.
pub proof fn law_charge_labels()
    ensures
        ChargeState::Discharging.spec_label() == "discharging"@,
        ChargeState::Charging.spec_label() == "charging"@,
        ChargeState::Full.spec_label() == "full"@,
        ChargeState::Unknown.spec_label() == "unknown"@,
{
}

} // verus!
