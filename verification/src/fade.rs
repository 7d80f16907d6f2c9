//! The fade engine: the ramp that takes the keyboard backlight from the level
//! it has to the level it should have, one percent at a time, with the power
//! LED switched at the dark end of the ramp.

use vstd::prelude::*;
use crate::command::{Command, KeyboardBacklightState, LedMode, LedState, MAX_PERCENT};

verus! {

/// How long to wait after each step of a fade, in milliseconds.
pub const FADE_STEP_PAUSE_MILLIS: u64 = 3;

/// One step of a fade: the LED command that goes with it, if any, the level
/// to write, and the pause that follows the write.
#[derive(Clone, Copy, Debug, PartialEq, Eq)]
pub struct FadeStep {
    pub led: Option<LedState>,
    pub level: u8,
    pub pause_millis: u64,
}

/// The number of single-percent steps between two levels.
pub open spec fn distance(from: u8, to: u8) -> nat {
    if from <= to {
        (to - from) as nat
    } else {
        (from - to) as nat
    }
}

/// The level reached `steps` steps into a fade from `from` towards `to`.
pub open spec fn level_after(from: u8, to: u8, steps: int) -> int {
    if from <= to {
        from + steps
    } else {
        from - steps
    }
}

/// The command for the power LED that goes with the arrival at `level`. The
/// LED cannot be dimmed, so it is switched off where the backlight goes dark
/// and handed back to the controller one percent above that.
pub open spec fn led_on_arrival(power: bool, level: int) -> Option<LedState> {
    if power && level == 0 {
        Some(LedState::power_led(LedMode::Off))
    } else if power && level == 1 {
        Some(LedState::power_led(LedMode::Auto))
    } else {
        None
    }
}

/// The step that arrives at `level`.
pub open spec fn step_to(power: bool, level: int) -> FadeStep {
    FadeStep {
        led: led_on_arrival(power, level),
        level: level as u8,
        pause_millis: FADE_STEP_PAUSE_MILLIS,
    }
}

/// The whole fade from `current` to `target`: step `i` arrives at the level
/// `i + 1` percent away from `current`, and the last one arrives at `target`.
pub open spec fn fade_plan(current: u8, target: u8, power: bool) -> Seq<FadeStep> {
    Seq::new(
        distance(current, target),
        |i: int| step_to(power, level_after(current, target, i + 1)),
    )
}

impl FadeStep {
    /// The commands of the step in the order in which they are sent.
    pub open spec fn commands_spec(self) -> Seq<Command> {
        match self.led {
            Some(led) => seq![
                Command::SetLed(led),
                Command::SetKeyboardBacklight { percent: self.level },
            ],
            None => seq![Command::SetKeyboardBacklight { percent: self.level }],
        }
    }

    /// The commands to send for this step, in order: the LED command first
    /// where there is one, then the backlight level.
    pub fn commands(&self) -> (cmds: Vec<Command>)
        ensures
            cmds@ == self.commands_spec(),
    {
        let mut cmds: Vec<Command> = Vec::new();
        if let Some(led) = self.led {
            cmds.push(Command::SetLed(led));
        }
        cmds.push(Command::SetKeyboardBacklight { percent: self.level });
        cmds
    }
}

/// The next step of a fade that stands at `current`, or `None` once the
/// target is reached.
pub fn next_step(current: u8, target: u8, power: bool) -> (step: Option<FadeStep>)
    ensures
        step == if current == target {
            None
        } else {
            Some(step_to(power, level_after(current, target, 1)))
        },
{
    if current == target {
        return None;
    }
    let level: u8 = if current > target {
        current - 1
    } else {
        current + 1
    };
    let led = if power && level == 0 {
        Some(LedState::power(LedMode::Off))
    } else if power && level == 1 {
        Some(LedState::power(LedMode::Auto))
    } else {
        None
    };
    Some(FadeStep { led, level, pause_millis: FADE_STEP_PAUSE_MILLIS })
}

/// Plans the fade from the state that the controller reported to `target`.
/// A disabled backlight is faded from zero. The caller sends the commands of
/// each step and pauses after it; when a command fails it stops there.
pub fn fade_to(state: KeyboardBacklightState, power: bool, target: u8) -> (plan: Vec<FadeStep>)
    ensures
        plan@ == fade_plan(state.effective(), target, power),
{
    let start = state.effective_percent();
    let mut current = start;
    let mut plan: Vec<FadeStep> = Vec::new();
    loop
        invariant
            plan@.len() == distance(start, current),
            start <= target ==> start <= current <= target,
            start > target ==> target <= current <= start,
            forall|i: int|
                0 <= i < plan@.len() ==> plan@[i] == step_to(
                    power,
                    level_after(start, target, i + 1),
                ),
        ensures
            current == target,
        decreases distance(current, target),
    {
        match next_step(current, target, power) {
            Some(step) => {
                current = step.level;
                plan.push(step);
            },
            None => {
                break ;
            },
        }
    }
    plan
}

/// The commands of a plan in the order in which they are sent.
pub open spec fn commands_of(plan: Seq<FadeStep>) -> Seq<Command>
    decreases plan.len(),
{
    if plan.len() == 0 {
        Seq::empty()
    } else {
        commands_of(plan.drop_last()) + plan.last().commands_spec()
    }
}

/// The levels that a sequence of commands writes to the backlight, in order.
pub open spec fn backlight_writes(commands: Seq<Command>) -> Seq<u8>
    decreases commands.len(),
{
    if commands.len() == 0 {
        Seq::empty()
    } else {
        let before = backlight_writes(commands.drop_last());
        match commands.last() {
            Command::SetKeyboardBacklight { percent } => before.push(percent),
            _ => before,
        }
    }
}

/// The LED states that a sequence of commands sets, in order.
pub open spec fn led_writes(commands: Seq<Command>) -> Seq<LedState>
    decreases commands.len(),
{
    if commands.len() == 0 {
        Seq::empty()
    } else {
        let before = led_writes(commands.drop_last());
        match commands.last() {
            Command::SetLed(led) => before.push(led),
            _ => before,
        }
    }
}

/// The levels of the ramp from `current` to `target`, in the order in which
/// a fade arrives at them.
pub open spec fn ramp(current: u8, target: u8) -> Seq<u8> {
    Seq::new(distance(current, target), |i: int| level_after(current, target, i + 1) as u8)
}

/// The LED states that a fade from `current` to `target` sets, in order. On
/// the way up the LED is handed back to the controller when the fade leaves
/// zero. On the way down it is handed back if the fade arrives at one from
/// above, and switched off if the fade goes on to zero.
pub open spec fn led_switches(current: u8, target: u8, power: bool) -> Seq<LedState> {
    let auto = LedState::power_led(LedMode::Auto);
    let off = LedState::power_led(LedMode::Off);
    if !power {
        Seq::empty()
    } else if current < target {
        if current == 0 {
            seq![auto]
        } else {
            Seq::empty()
        }
    } else {
        let through_one: Seq<LedState> = if target <= 1 && current >= 2 {
            seq![auto]
        } else {
            Seq::empty()
        };
        let into_zero: Seq<LedState> = if target == 0 && current >= 1 {
            seq![off]
        } else {
            Seq::empty()
        };
        through_one + into_zero
    }
}

proof fn lemma_writes_concat(a: Seq<Command>, b: Seq<Command>)
    ensures
        backlight_writes(a + b) == backlight_writes(a) + backlight_writes(b),
        led_writes(a + b) == led_writes(a) + led_writes(b),
    decreases b.len(),
{
    if b.len() == 0 {
        assert(a + b =~= a);
    } else {
        assert((a + b).drop_last() =~= a + b.drop_last());
        lemma_writes_concat(a, b.drop_last());
    }
}

proof fn lemma_step_writes(step: FadeStep)
    ensures
        backlight_writes(step.commands_spec()) == seq![step.level],
        led_writes(step.commands_spec()) == match step.led {
            Some(led) => seq![led],
            None => Seq::<LedState>::empty(),
        },
{
    let commands = step.commands_spec();
    reveal_with_fuel(backlight_writes, 3);
    reveal_with_fuel(led_writes, 3);
    match step.led {
        Some(led) => {
            assert(commands.drop_last() =~= seq![Command::SetLed(led)]);
            assert(commands.drop_last().drop_last() =~= Seq::<Command>::empty());
        },
        None => {
            assert(commands.drop_last() =~= Seq::<Command>::empty());
        },
    }
}

/// The level one step short of `target` on the way from `current`.
spec fn level_before(current: u8, target: u8) -> u8 {
    if current < target {
        (target - 1) as u8
    } else {
        (target + 1) as u8
    }
}

proof fn lemma_fade_writes(current: u8, target: u8, power: bool)
    ensures
        backlight_writes(commands_of(fade_plan(current, target, power))) == ramp(current, target),
        led_writes(commands_of(fade_plan(current, target, power))) == led_switches(
            current,
            target,
            power,
        ),
    decreases distance(current, target),
{
    let plan = fade_plan(current, target, power);
    if current == target {
        assert(ramp(current, target) =~= Seq::<u8>::empty());
        assert(led_switches(current, target, power) =~= Seq::<LedState>::empty());
    } else {
        let short = level_before(current, target);
        let last = step_to(power, target as int);
        assert(plan.drop_last() =~= fade_plan(current, short, power));
        assert(plan.last() == last);
        lemma_fade_writes(current, short, power);
        lemma_writes_concat(commands_of(plan.drop_last()), last.commands_spec());
        lemma_step_writes(last);
        assert(ramp(current, target) =~= ramp(current, short).push(target));
        assert(led_switches(current, target, power) =~= led_switches(current, short, power)
            + match last.led {
            Some(led) => seq![led],
            None => Seq::<LedState>::empty(),
        });
    }
}

/// A fade writes each level between `current` and `target` once, one
/// percent after the other in the direction of `target`: as many writes as
/// the two levels are apart, each one percent from the one before it, the
/// first one percent from `current` and the last equal to `target`. No write
/// leaves the range between the two levels, so a fade between levels that
/// the controller accepts writes only levels that it accepts.
pub proof fn lemma_fade_is_a_monotonic_ramp(current: u8, target: u8, power: bool)
    ensures
        ({
            let writes = backlight_writes(commands_of(fade_plan(current, target, power)));
            &&& writes == ramp(current, target)
            &&& writes.len() == distance(current, target)
            &&& forall|i: int|
                0 <= i < writes.len() ==> #[trigger] writes[i] == level_after(
                    current,
                    target,
                    i + 1,
                )
            &&& forall|i: int, j: int|
                0 <= i < j < writes.len() ==> if current < target {
                    #[trigger] writes[i] < #[trigger] writes[j]
                } else {
                    writes[i] > writes[j]
                }
            &&& current != target ==> writes.last() == target
            &&& forall|i: int|
                0 <= i < writes.len() ==> if current < target {
                    current < #[trigger] writes[i] <= target
                } else {
                    target <= writes[i] < current
                }
            &&& current <= MAX_PERCENT && target <= MAX_PERCENT ==> forall|i: int|
                0 <= i < writes.len() ==> #[trigger] writes[i] <= MAX_PERCENT
        }),
{
    lemma_fade_writes(current, target, power);
}

/// A fade that is cut short after `done` steps has run the whole fade to the
/// level it stopped at, and a fade from that level to the same target is
/// what was left of it.
pub proof fn lemma_fade_resumes_where_it_stopped(current: u8, target: u8, power: bool, done: nat)
    requires
        done <= distance(current, target),
    ensures
        ({
            let plan = fade_plan(current, target, power);
            let reached = level_after(current, target, done as int) as u8;
            &&& plan.take(done as int) == fade_plan(current, reached, power)
            &&& plan.skip(done as int) == fade_plan(reached, target, power)
            &&& plan == fade_plan(current, reached, power) + fade_plan(reached, target, power)
        }),
{
    let plan = fade_plan(current, target, power);
    let reached = level_after(current, target, done as int) as u8;
    assert(plan.take(done as int) =~= fade_plan(current, reached, power));
    assert(plan.skip(done as int) =~= fade_plan(reached, target, power));
    assert(plan =~= plan.take(done as int) + plan.skip(done as int));
}

/// A fade between equal levels has no step and sends no command.
pub proof fn lemma_fade_is_idempotent(level: u8, power: bool)
    ensures
        fade_plan(level, level, power) == Seq::<FadeStep>::empty(),
        commands_of(fade_plan(level, level, power)) == Seq::<Command>::empty(),
{
    assert(fade_plan(level, level, power) =~= Seq::<FadeStep>::empty());
}

/// A disabled backlight is faded as one that stands at zero, whatever
/// percentage was reported with it.
pub proof fn lemma_disabled_fades_from_zero(percent: u8, target: u8, power: bool)
    ensures
        (KeyboardBacklightState { enabled: false, percent }).effective() == 0,
        fade_plan(
            (KeyboardBacklightState { enabled: false, percent }).effective(),
            target,
            power,
        ) == fade_plan(0, target, power),
{
}

/// With the power LED under control, the step that arrives at zero carries
/// the command that switches the LED off, the step that arrives at one
/// carries the command that hands it back to the controller, and no other
/// step carries an LED command. A fade arrives at each level at most once,
/// so each of the two commands is sent at most once; `led_switches` says for
/// which fades. Without control of the LED no step carries an LED command.
pub proof fn lemma_led_switches_at_the_dark_end(current: u8, target: u8, power: bool)
    ensures
        ({
            let plan = fade_plan(current, target, power);
            let off = LedState::power_led(LedMode::Off);
            let auto = LedState::power_led(LedMode::Auto);
            &&& forall|i: int|
                0 <= i < plan.len() ==> ((#[trigger] plan[i]).led == Some(off) <==> power
                    && plan[i].level == 0)
            &&& forall|i: int|
                0 <= i < plan.len() ==> ((#[trigger] plan[i]).led == Some(auto) <==> power
                    && plan[i].level == 1)
            &&& forall|i: int|
                0 <= i < plan.len() ==> ((#[trigger] plan[i]).led is None <==> !power
                    || plan[i].level > 1)
            &&& forall|i: int, j: int|
                0 <= i < plan.len() && 0 <= j < plan.len() && (#[trigger] plan[i]).level == (
                #[trigger] plan[j]).level ==> i == j
            &&& led_writes(commands_of(plan)) == led_switches(current, target, power)
        }),
{
    lemma_fade_writes(current, target, power);
}

} // verus!
