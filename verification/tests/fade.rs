use keylightd::command::{Command, KeyboardBacklightState, LedBrightness, LedId, LedMode, LedState};
use keylightd::fade::{fade_to, next_step, FadeStep, FADE_STEP_PAUSE_MILLIS};

fn lit(percent: u8) -> KeyboardBacklightState {
    KeyboardBacklightState { enabled: true, percent }
}

fn power_led(mode: LedMode) -> LedState {
    LedState {
        id: LedId::Power,
        mode,
        brightness: LedBrightness { red: 0, green: 0, blue: 0, yellow: 0, white: 0, amber: 0 },
    }
}

fn commands_of(plan: &[FadeStep]) -> Vec<Command> {
    let mut all = Vec::new();
    for step in plan {
        all.extend(step.commands());
    }
    all
}

fn backlight_writes(commands: &[Command]) -> Vec<u8> {
    let mut levels = Vec::new();
    for command in commands {
        if let Command::SetKeyboardBacklight { percent } = command {
            levels.push(*percent);
        }
    }
    levels
}

fn led_writes(commands: &[Command]) -> Vec<LedState> {
    let mut leds = Vec::new();
    for command in commands {
        if let Command::SetLed(led) = command {
            leds.push(*led);
        }
    }
    leds
}

#[test]
fn fade_up_writes_each_level_once() {
    let plan = fade_to(lit(10), false, 15);
    assert_eq!(backlight_writes(&commands_of(&plan)), vec![11, 12, 13, 14, 15]);
}

#[test]
fn fade_down_writes_each_level_once() {
    let plan = fade_to(lit(15), false, 10);
    assert_eq!(backlight_writes(&commands_of(&plan)), vec![14, 13, 12, 11, 10]);
}

#[test]
fn fade_has_as_many_writes_as_the_levels_are_apart() {
    for current in 0..=100u8 {
        for target in 0..=100u8 {
            let plan = fade_to(lit(current), true, target);
            let writes = backlight_writes(&commands_of(&plan));
            let apart = if current > target { current - target } else { target - current };
            assert_eq!(writes.len(), apart as usize);
            let mut at = current;
            for level in writes {
                if current < target {
                    assert_eq!(level, at + 1);
                } else {
                    assert_eq!(level, at - 1);
                }
                assert!(level <= 100);
                at = level;
            }
            assert_eq!(at, target);
        }
    }
}

#[test]
fn fade_over_the_whole_byte_range() {
    let up = fade_to(lit(0), false, 255);
    assert_eq!(up.len(), 255);
    assert_eq!(up[0].level, 1);
    assert_eq!(up[254].level, 255);
    let down = fade_to(lit(255), false, 0);
    assert_eq!(down.len(), 255);
    assert_eq!(down[0].level, 254);
    assert_eq!(down[254].level, 0);
}

#[test]
fn fade_between_equal_levels_is_empty() {
    for level in [0u8, 1, 30, 100, 255] {
        assert_eq!(fade_to(lit(level), true, level), vec![]);
        assert_eq!(fade_to(lit(level), false, level), vec![]);
        assert_eq!(next_step(level, level, true), None);
    }
}

#[test]
fn disabled_backlight_counts_as_dark() {
    let disabled = KeyboardBacklightState { enabled: false, percent: 70 };
    assert_eq!(disabled.effective_percent(), 0);
    assert_eq!(lit(70).effective_percent(), 70);
    assert_eq!(fade_to(disabled, true, 3), fade_to(lit(0), true, 3));
    assert_eq!(backlight_writes(&commands_of(&fade_to(disabled, false, 3))), vec![1, 2, 3]);
    assert_eq!(fade_to(disabled, true, 0), vec![]);
}

#[test]
fn every_step_pauses_three_milliseconds() {
    assert_eq!(FADE_STEP_PAUSE_MILLIS, 3);
    for step in fade_to(lit(0), true, 100) {
        assert_eq!(step.pause_millis, 3);
    }
}

#[test]
fn next_step_moves_one_percent_towards_the_target() {
    assert_eq!(next_step(3, 9, true), Some(FadeStep { led: None, level: 4, pause_millis: 3 }));
    assert_eq!(next_step(9, 3, true), Some(FadeStep { led: None, level: 8, pause_millis: 3 }));
    assert_eq!(
        next_step(0, 9, true),
        Some(FadeStep { led: Some(power_led(LedMode::Auto)), level: 1, pause_millis: 3 })
    );
    assert_eq!(
        next_step(1, 0, true),
        Some(FadeStep { led: Some(power_led(LedMode::Off)), level: 0, pause_millis: 3 })
    );
    assert_eq!(
        next_step(2, 0, true),
        Some(FadeStep { led: Some(power_led(LedMode::Auto)), level: 1, pause_millis: 3 })
    );
    assert_eq!(next_step(1, 0, false), Some(FadeStep { led: None, level: 0, pause_millis: 3 }));
    assert_eq!(next_step(0, 1, false), Some(FadeStep { led: None, level: 1, pause_millis: 3 }));
}

#[test]
fn led_command_goes_before_the_level() {
    let step = FadeStep { led: Some(power_led(LedMode::Off)), level: 0, pause_millis: 3 };
    assert_eq!(
        step.commands(),
        vec![
            Command::SetLed(power_led(LedMode::Off)),
            Command::SetKeyboardBacklight { percent: 0 },
        ]
    );
    let plain = FadeStep { led: None, level: 42, pause_millis: 3 };
    assert_eq!(plain.commands(), vec![Command::SetKeyboardBacklight { percent: 42 }]);
}

#[test]
fn power_led_constructor_uses_dark_channels() {
    assert_eq!(LedState::power(LedMode::Auto), power_led(LedMode::Auto));
    assert_eq!(LedState::power(LedMode::Off), power_led(LedMode::Off));
    assert_eq!(LedBrightness::default(), power_led(LedMode::Off).brightness);
}

#[test]
fn led_is_switched_only_at_zero_and_one() {
    for current in 0..=100u8 {
        for target in 0..=100u8 {
            let plan = fade_to(lit(current), true, target);
            let mut offs = 0;
            let mut autos = 0;
            for step in &plan {
                match step.level {
                    0 => {
                        assert_eq!(step.led, Some(power_led(LedMode::Off)));
                        offs += 1;
                    }
                    1 => {
                        assert_eq!(step.led, Some(power_led(LedMode::Auto)));
                        autos += 1;
                    }
                    _ => assert_eq!(step.led, None),
                }
            }
            let reaches_zero = current > 0 && target == 0;
            let reaches_one = (current == 0 && target >= 1) || (current >= 2 && target <= 1);
            assert_eq!(offs, if reaches_zero { 1 } else { 0 });
            assert_eq!(autos, if reaches_one { 1 } else { 0 });
            assert_eq!(led_writes(&commands_of(&plan)).len(), offs + autos);
        }
    }
}

#[test]
fn led_is_left_alone_without_the_power_flag() {
    for (current, target) in [(0u8, 100u8), (100, 0), (2, 0), (0, 1), (1, 0)] {
        let plan = fade_to(lit(current), false, target);
        assert_eq!(led_writes(&commands_of(&plan)), vec![]);
    }
}

#[test]
fn fade_up_from_dark_hands_the_led_back_first() {
    let plan = fade_to(lit(0), true, 3);
    assert_eq!(
        commands_of(&plan),
        vec![
            Command::SetLed(power_led(LedMode::Auto)),
            Command::SetKeyboardBacklight { percent: 1 },
            Command::SetKeyboardBacklight { percent: 2 },
            Command::SetKeyboardBacklight { percent: 3 },
        ]
    );
}

#[test]
fn fade_down_that_stops_at_one_hands_the_led_back() {
    let plan = fade_to(lit(3), true, 1);
    assert_eq!(
        commands_of(&plan),
        vec![
            Command::SetKeyboardBacklight { percent: 2 },
            Command::SetLed(power_led(LedMode::Auto)),
            Command::SetKeyboardBacklight { percent: 1 },
        ]
    );
}

#[test]
fn fade_down_from_fifty_with_power_led() {
    let plan = fade_to(lit(50), true, 0);
    let commands = commands_of(&plan);
    let writes = backlight_writes(&commands);
    assert_eq!(writes.len(), 50);
    assert_eq!(writes[0], 49);
    assert_eq!(writes[49], 0);
    let offs: Vec<usize> = (0..plan.len())
        .filter(|&i| plan[i].led == Some(power_led(LedMode::Off)))
        .collect();
    assert_eq!(offs, vec![49]);
    assert_eq!(led_writes(&commands), vec![power_led(LedMode::Auto), power_led(LedMode::Off)]);
    assert_eq!(
        commands[commands.len() - 2..].to_vec(),
        vec![
            Command::SetLed(power_led(LedMode::Off)),
            Command::SetKeyboardBacklight { percent: 0 },
        ]
    );
}
