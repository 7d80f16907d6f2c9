//! The activity controller: the state machine that lights the keyboard while
//! the input devices are in use and darkens it when they have been quiet for
//! the configured time.
//!
//! The controller decides and the caller acts. Each turn of the caller's loop
//! waits for input as long as `wait_timeout` says, reads the backlight if
//! `wants_sample` asks for it, and hands both to `on_wait`. The reaction that
//! comes back names the fade to run, if any, and the pause to make after it.

use vstd::prelude::*;
use crate::command::{KeyboardBacklightState, MAX_PERCENT};
use crate::monitor::WaitOutcome;

verus! {

/// How long to pause after input was seen, in milliseconds. Without the
/// pause, steady input would wake the loop as fast as events arrive.
pub const ACTIVE_POLL_PAUSE_MILLIS: u64 = 500;

/// The options that the daemon is started with.
#[derive(Clone, Copy, Debug, PartialEq, Eq, Structural)]
pub struct Config {
    /// Seconds without input after which the backlight is darkened.
    pub timeout_secs: u32,
    /// The level to light the keyboard at.
    pub brightness: u8,
    /// Whether the power LED follows the backlight.
    pub power_led: bool,
    /// Whether the level that the backlight was last seen at while lit
    /// replaces the configured one.
    pub persist: bool,
}

impl Config {
    /// Whether the configured level lies within `0..=MAX_PERCENT`.
    pub open spec fn valid(self) -> bool {
        self.brightness <= MAX_PERCENT
    }

    /// The configuration with these options, unless the level is out of
    /// range.
    pub fn new(
        timeout_secs: u32,
        brightness: u8,
        power_led: bool,
        persist: bool,
    ) -> (config: Option<Config>)
        ensures
            config == if brightness <= MAX_PERCENT {
                Some(Config { timeout_secs, brightness, power_led, persist })
            } else {
                None
            },
    {
        if brightness <= MAX_PERCENT {
            Some(Config { timeout_secs, brightness, power_led, persist })
        } else {
            None
        }
    }
}

/// Whether the keyboard is taken to be in use.
#[derive(Clone, Copy, Debug, PartialEq, Eq, Structural)]
pub enum ActivityPhase {
    Idle,
    Active,
}

/// What the caller is to do after a wait: run a fade to `fade_target` if
/// there is one, then pause for `pause_millis` if there is one.
#[derive(Clone, Copy, Debug, PartialEq, Eq)]
pub struct Reaction {
    pub fade_target: Option<u8>,
    pub pause_millis: Option<u64>,
}

/// The state of the controller: its phase and the level that the next
/// fade-up goes to.
#[derive(Clone, Copy, Debug, PartialEq, Eq, Structural)]
pub struct ControllerState {
    pub phase: ActivityPhase,
    pub target: u8,
}

impl ControllerState {
    /// The state to start in, derived from the backlight as it was read at
    /// startup: a lit backlight means that the keyboard is in use. With
    /// `persist`, the level of a lit backlight is taken over as the target;
    /// in every other case the target is the configured level.
    pub open spec fn initial(config: Config, backlight: KeyboardBacklightState) -> ControllerState {
        if backlight.effective() > 0 {
            ControllerState {
                phase: ActivityPhase::Active,
                target: if config.persist {
                    backlight.effective()
                } else {
                    config.brightness
                },
            }
        } else {
            ControllerState { phase: ActivityPhase::Idle, target: config.brightness }
        }
    }

    /// Whether the backlight is to be read before the next transition.
    pub open spec fn samples(self, config: Config) -> bool {
        config.persist && self.phase is Active
    }

    /// The target after a wait: the level just read, where one was asked
    /// for and handed in, and the target as it was otherwise.
    pub open spec fn resampled(self, config: Config, live: Option<KeyboardBacklightState>) -> u8 {
        match live {
            Some(backlight) if self.samples(config) => backlight.effective(),
            _ => self.target,
        }
    }

    /// The state after a wait that ended in `outcome`.
    pub open spec fn after(
        self,
        config: Config,
        outcome: WaitOutcome,
        live: Option<KeyboardBacklightState>,
    ) -> ControllerState {
        ControllerState {
            phase: match outcome {
                WaitOutcome::Activity => ActivityPhase::Active,
                WaitOutcome::TimedOut => ActivityPhase::Idle,
            },
            target: self.resampled(config, live),
        }
    }

    /// What the caller is to do after a wait that ended in `outcome`. Only a
    /// change of phase runs a fade: up to the target when input arrives in
    /// the idle phase, down to zero when the active phase times out. Input
    /// is always followed by the pause.
    pub open spec fn reaction(
        self,
        config: Config,
        outcome: WaitOutcome,
        live: Option<KeyboardBacklightState>,
    ) -> Reaction {
        match outcome {
            WaitOutcome::Activity => Reaction {
                fade_target: if self.phase is Idle {
                    Some(self.resampled(config, live))
                } else {
                    None
                },
                pause_millis: Some(ACTIVE_POLL_PAUSE_MILLIS),
            },
            WaitOutcome::TimedOut => Reaction {
                fade_target: if self.phase is Active {
                    Some(0u8)
                } else {
                    None
                },
                pause_millis: None,
            },
        }
    }

    /// Whether the target lies within `0..=MAX_PERCENT`.
    pub open spec fn in_range(self) -> bool {
        self.target <= MAX_PERCENT
    }
}

/// The controller. It alone holds the phase, and only `on_wait` changes it.
pub struct ActivityController {
    config: Config,
    state: ControllerState,
}

impl View for ActivityController {
    type V = ControllerState;

    closed spec fn view(&self) -> ControllerState {
        self.state
    }
}

impl ActivityController {
    /// The configuration that the controller was made with.
    pub closed spec fn config(&self) -> Config {
        self.config
    }

    /// The controller for `config`, started from the backlight as it was
    /// just read.
    pub fn new(config: Config, backlight: KeyboardBacklightState) -> (controller: Self)
        ensures
            controller.config() == config,
            controller@ == ControllerState::initial(config, backlight),
    {
        let level = backlight.effective_percent();
        let state = if level > 0 {
            ControllerState {
                phase: ActivityPhase::Active,
                target: if config.persist {
                    level
                } else {
                    config.brightness
                },
            }
        } else {
            ControllerState { phase: ActivityPhase::Idle, target: config.brightness }
        };
        ActivityController { config, state }
    }

    pub fn phase(&self) -> (phase: ActivityPhase)
        ensures
            phase == self@.phase,
    {
        self.state.phase
    }

    /// The level that the next fade-up goes to.
    pub fn target(&self) -> (target: u8)
        ensures
            target == self@.target,
    {
        self.state.target
    }

    /// Whether fades are to switch the power LED too.
    pub fn power_led(&self) -> (power: bool)
        ensures
            power == self.config().power_led,
    {
        self.config.power_led
    }

    /// How long the next wait for input may last, in seconds: the configured
    /// time in the active phase, and without limit in the idle phase.
    pub fn wait_timeout(&self) -> (timeout: Option<u32>)
        ensures
            timeout == if self@.phase is Active {
                Some(self.config().timeout_secs)
            } else {
                None
            },
    {
        match self.state.phase {
            ActivityPhase::Active => Some(self.config.timeout_secs),
            ActivityPhase::Idle => None,
        }
    }

    /// Whether the caller is to read the backlight after the next wait and
    /// hand it to `on_wait`.
    pub fn wants_sample(&self) -> (wanted: bool)
        ensures
            wanted == self@.samples(self.config()),
    {
        self.config.persist && matches!(self.state.phase, ActivityPhase::Active)
    }

    /// Takes the outcome of a wait, and the backlight as read after it if
    /// that was asked for, and says what to do.
    pub fn on_wait(
        &mut self,
        outcome: WaitOutcome,
        live: Option<KeyboardBacklightState>,
    ) -> (reaction: Reaction)
        ensures
            final(self).config() == old(self).config(),
            final(self)@ == old(self)@.after(old(self).config(), outcome, live),
            reaction == old(self)@.reaction(old(self).config(), outcome, live),
    {
        let was_active = matches!(self.state.phase, ActivityPhase::Active);
        if self.config.persist && was_active {
            if let Some(backlight) = live {
                self.state.target = backlight.effective_percent();
            }
        }
        match outcome {
            WaitOutcome::Activity => {
                self.state.phase = ActivityPhase::Active;
                Reaction {
                    fade_target: if was_active {
                        None
                    } else {
                        Some(self.state.target)
                    },
                    pause_millis: Some(ACTIVE_POLL_PAUSE_MILLIS),
                }
            },
            WaitOutcome::TimedOut => {
                self.state.phase = ActivityPhase::Idle;
                Reaction {
                    fade_target: if was_active {
                        Some(0)
                    } else {
                        None
                    },
                    pause_millis: None,
                }
            },
        }
    }
}

/// A fade is run exactly when the phase changes, and the pause is made
/// exactly after input.
pub proof fn lemma_fade_only_on_phase_change(
    config: Config,
    state: ControllerState,
    outcome: WaitOutcome,
    live: Option<KeyboardBacklightState>,
)
    ensures
        state.reaction(config, outcome, live).fade_target is Some <==> state.after(
            config,
            outcome,
            live,
        ).phase != state.phase,
        state.reaction(config, outcome, live).pause_millis is Some <==> outcome is Activity,
{
}

/// From the idle phase, input leads to the active phase and a fade up to
/// the target. From there a timeout leads back to the idle phase and a fade
/// down to zero, while further input stays in the active phase and runs no
/// fade.
pub proof fn lemma_activity_cycle(
    config: Config,
    idle: ControllerState,
    first: Option<KeyboardBacklightState>,
    second: Option<KeyboardBacklightState>,
)
    requires
        idle.phase is Idle,
    ensures
        ({
            let lit = idle.after(config, WaitOutcome::Activity, first);
            &&& lit.phase is Active
            &&& idle.reaction(config, WaitOutcome::Activity, first).fade_target == Some(
                idle.target,
            )
            &&& lit.after(config, WaitOutcome::TimedOut, second).phase is Idle
            &&& lit.reaction(config, WaitOutcome::TimedOut, second).fade_target == Some(0u8)
            &&& lit.after(config, WaitOutcome::Activity, second).phase is Active
            &&& lit.reaction(config, WaitOutcome::Activity, second).fade_target is None
        }),
{
}

/// With `persist`, every wait in the active phase replaces the target by
/// the level that the backlight was read at, and the fade-up that follows a
/// timeout goes to the level read last, not to the configured one.
pub proof fn lemma_persisted_target_is_the_last_seen(
    config: Config,
    active: ControllerState,
    outcome: WaitOutcome,
    seen: KeyboardBacklightState,
    later: Option<KeyboardBacklightState>,
)
    requires
        config.persist,
        active.phase is Active,
    ensures
        active.after(config, outcome, Some(seen)).target == seen.effective(),
        ({
            let dark = active.after(config, WaitOutcome::TimedOut, Some(seen));
            dark.reaction(config, WaitOutcome::Activity, later).fade_target == Some(
                seen.effective(),
            )
        }),
{
}

/// Without `persist`, and in the idle phase, a wait leaves the target as it
/// was.
pub proof fn lemma_target_is_kept(
    config: Config,
    state: ControllerState,
    outcome: WaitOutcome,
    live: Option<KeyboardBacklightState>,
)
    requires
        !config.persist || state.phase is Idle,
    ensures
        state.after(config, outcome, live).target == state.target,
{
}

/// A controller that is started and fed with levels within
/// `0..=MAX_PERCENT` never asks for a fade to a level outside of it.
pub proof fn lemma_targets_stay_in_range(
    config: Config,
    state: ControllerState,
    outcome: WaitOutcome,
    live: Option<KeyboardBacklightState>,
    backlight: KeyboardBacklightState,
)
    requires
        config.valid(),
        state.in_range(),
        backlight.in_range(),
        live matches Some(sample) ==> sample.in_range(),
    ensures
        ControllerState::initial(config, backlight).in_range(),
        state.after(config, outcome, live).in_range(),
        state.reaction(config, outcome, live).fade_target matches Some(level) ==> level
            <= MAX_PERCENT,
{
}

} // verus!
