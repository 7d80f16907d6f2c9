//! The values exchanged with the embedded controller: the keyboard backlight
//! state it reports and the commands that can be sent to it.

use vstd::prelude::*;

verus! {

/// The highest backlight level the controller accepts.
pub const MAX_PERCENT: u8 = 100;

/// The keyboard backlight as the controller reports it.
#[derive(Clone, Copy, Debug, PartialEq, Eq, Structural)]
pub struct KeyboardBacklightState {
    pub enabled: bool,
    pub percent: u8,
}

impl KeyboardBacklightState {
    /// The level that the control logic works with: a disabled backlight
    /// counts as dark, whatever percentage is reported with it.
    pub open spec fn effective(self) -> u8 {
        if self.enabled {
            self.percent
        } else {
            0
        }
    }

    /// Whether the reported percentage lies within `0..=MAX_PERCENT`.
    pub open spec fn in_range(self) -> bool {
        self.percent <= MAX_PERCENT
    }

    pub fn effective_percent(&self) -> (level: u8)
        ensures
            level == self.effective(),
    {
        if self.enabled {
            self.percent
        } else {
            0
        }
    }
}

/// The LEDs that the controller can address.
#[derive(Clone, Copy, Debug, PartialEq, Eq, Structural)]
pub enum LedId {
    Battery,
    Power,
    Adapter,
    Left,
    Right,
    RecoveryHwReinit,
    SysrqDebug,
}

impl LedId {
    /// The identifier of the LED on the wire.
    pub open spec fn wire(self) -> u8 {
        match self {
            LedId::Battery => 0,
            LedId::Power => 1,
            LedId::Adapter => 2,
            LedId::Left => 3,
            LedId::Right => 4,
            LedId::RecoveryHwReinit => 5,
            LedId::SysrqDebug => 6,
        }
    }

    pub fn code(&self) -> (c: u8)
        ensures
            c == self.wire(),
    {
        match self {
            LedId::Battery => 0,
            LedId::Power => 1,
            LedId::Adapter => 2,
            LedId::Left => 3,
            LedId::Right => 4,
            LedId::RecoveryHwReinit => 5,
            LedId::SysrqDebug => 6,
        }
    }
}

/// How the controller is to drive an LED.
#[derive(Clone, Copy, Debug, PartialEq, Eq, Structural)]
pub enum LedMode {
    /// No flag set: the LED is dark.
    Off,
    /// Ask for the supported brightness range without changing anything.
    Query,
    /// Hand the LED back to the controller's own policy.
    Auto,
}

impl LedMode {
    /// The flag byte of the mode on the wire.
    pub open spec fn wire(self) -> u8 {
        match self {
            LedMode::Off => 0,
            LedMode::Query => 1,
            LedMode::Auto => 2,
        }
    }

    pub fn flags(&self) -> (f: u8)
        ensures
            f == self.wire(),
    {
        match self {
            LedMode::Off => 0,
            LedMode::Query => 1,
            LedMode::Auto => 2,
        }
    }
}

/// One intensity byte per colour channel of an LED, in wire order.
#[derive(Clone, Copy, Debug, PartialEq, Eq, Structural)]
pub struct LedBrightness {
    pub red: u8,
    pub green: u8,
    pub blue: u8,
    pub yellow: u8,
    pub white: u8,
    pub amber: u8,
}

impl LedBrightness {
    /// All channels at zero.
    pub open spec fn dark() -> LedBrightness {
        LedBrightness { red: 0, green: 0, blue: 0, yellow: 0, white: 0, amber: 0 }
    }

    /// The channels in wire order.
    pub open spec fn wire(self) -> Seq<u8> {
        seq![self.red, self.green, self.blue, self.yellow, self.white, self.amber]
    }
}

impl Default for LedBrightness {
    fn default() -> (b: LedBrightness)
        ensures
            b == LedBrightness::dark(),
    {
        LedBrightness { red: 0, green: 0, blue: 0, yellow: 0, white: 0, amber: 0 }
    }
}

/// What an LED is set to. The brightness is all zero unless it is given,
/// and plays no part when the mode is `Off` or `Auto`.
#[derive(Clone, Copy, Debug, PartialEq, Eq, Structural)]
pub struct LedState {
    pub id: LedId,
    pub mode: LedMode,
    pub brightness: LedBrightness,
}

impl LedState {
    /// The power LED in `mode`, with all channels at zero.
    pub open spec fn power_led(mode: LedMode) -> LedState {
        LedState { id: LedId::Power, mode, brightness: LedBrightness::dark() }
    }

    pub fn power(mode: LedMode) -> (led: LedState)
        ensures
            led == LedState::power_led(mode),
    {
        LedState { id: LedId::Power, mode, brightness: LedBrightness::default() }
    }
}

/// A request to the embedded controller.
#[derive(Clone, Copy, Debug, PartialEq, Eq, Structural)]
pub enum Command {
    GetKeyboardBacklight,
    SetKeyboardBacklight { percent: u8 },
    SetLed(LedState),
}

} // verus!
