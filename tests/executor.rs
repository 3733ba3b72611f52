use comb::action::{bind_value, ActionExecutor, Effect};
use comb::btn::Btn;
use comb::config::{Action, ActionType, Config, Device, WhenCondition};
use comb::device::DeviceAccessor;
use comb::events::{DeviceInput, Timestamp};
use comb::input::{Input, InputEvent, InputState, EV_KEY};
use comb::key::Key;
use comb::rel_axis::RelAxis;

fn config(id: &str, actions: Vec<Action>) -> Config {
    Config {
        devices: vec![Device {
            accessor: DeviceAccessor::Path(id.to_string()),
            actions,
        }],
    }
}

fn bind(from: Input, to: Input, when: Option<WhenCondition>) -> Action {
    Action { bind: from, action: ActionType::Bind { to, when } }
}

fn input(device: &str, event: InputEvent) -> DeviceInput {
    DeviceInput {
        timestamp: Timestamp { secs: 1, nanos: 0 },
        input_event: event,
        device: device.to_string(),
    }
}

fn emitted(effects: &[Effect]) -> Vec<(u16, u16, i32)> {
    effects
        .iter()
        .map(|e| match e {
            Effect::Emit { type_, code, value } => (*type_, *code, *value),
            other => panic!("unexpected {other:?}"),
        })
        .collect()
}

#[test]
fn simple_bind_with_always_when() {
    let exec = ActionExecutor::from_config(config(
        "/dev/input/event3",
        vec![bind(Input::Key(Key::CapsLock), Input::Key(Key::Esc), None)],
    ));
    let mut out = vec![];
    for state in [InputState::Pressed, InputState::Repeated, InputState::Released] {
        out.extend(emitted(&exec.handle_input(&input("/dev/input/event3", InputEvent::Key(Key::CapsLock, state)))));
    }
    assert_eq!(out, vec![(EV_KEY, 1, 1), (EV_KEY, 1, 2), (EV_KEY, 1, 0)]);
    assert_eq!(exec.advertised_keys(), vec![1]);
    assert!(exec.advertised_rel_axes().is_empty());
}

#[test]
fn hook_on_press_only() {
    let exec = ActionExecutor::from_config(config(
        "pad",
        vec![Action {
            bind: Input::Btn(Btn::South),
            action: ActionType::Hook { when: WhenCondition::pressed(), cmd: "true".to_string() },
        }],
    ));
    let mut spawned = 0;
    for state in [InputState::Pressed, InputState::Released, InputState::Pressed] {
        for effect in exec.handle_input(&input("pad", InputEvent::Btn(Btn::South, state))) {
            match effect {
                Effect::Hook(cmd) => {
                    assert_eq!(cmd, "true");
                    spawned += 1;
                }
                other => panic!("unexpected {other:?}"),
            }
        }
    }
    assert_eq!(spawned, 2);
}

#[test]
fn hook_runs_once_per_press() {
    let exec = ActionExecutor::from_config(config(
        "D",
        vec![Action {
            bind: Input::Key(Key::A),
            action: ActionType::Hook { when: WhenCondition::pressed(), cmd: "C".to_string() },
        }],
    ));
    let pressed = exec.handle_input(&input("D", InputEvent::Key(Key::A, InputState::Pressed)));
    assert_eq!(pressed.len(), 1);
    assert!(matches!(&pressed[0], Effect::Hook(cmd) if cmd == "C"));
    assert!(exec.handle_input(&input("D", InputEvent::Key(Key::A, InputState::Released))).is_empty());
    assert!(exec.handle_input(&input("D", InputEvent::Key(Key::A, InputState::Repeated))).is_empty());
    assert!(exec.handle_input(&input("E", InputEvent::Key(Key::A, InputState::Pressed))).is_empty());
    assert!(exec.handle_input(&input("D", InputEvent::Key(Key::B, InputState::Pressed))).is_empty());
}

#[test]
fn axis_to_key_bind_presses() {
    let exec = ActionExecutor::from_config(config(
        "mouse",
        vec![bind(Input::RelAxis(RelAxis::Wheel), Input::Key(Key::VolumeUp), None)],
    ));
    let out = emitted(&exec.handle_input(&input("mouse", InputEvent::RelAxis(RelAxis::Wheel, 1))));
    assert_eq!(out, vec![(EV_KEY, 115, 1)]);
}

#[test]
fn predicate_gated_bind() {
    let exec = ActionExecutor::from_config(config(
        "mouse",
        vec![bind(Input::RelAxis(RelAxis::Wheel), Input::Key(Key::VolumeDown), Some(">0".parse().unwrap()))],
    ));
    let up = emitted(&exec.handle_input(&input("mouse", InputEvent::RelAxis(RelAxis::Wheel, 3))));
    let down = emitted(&exec.handle_input(&input("mouse", InputEvent::RelAxis(RelAxis::Wheel, -3))));
    assert_eq!(up, vec![(EV_KEY, 114, InputState::Pressed.as_i32())]);
    assert_eq!(down, vec![(EV_KEY, 114, 0)]);
}

#[test]
fn live_reload_grows_capabilities() {
    let mut exec = ActionExecutor::from_config(config(
        "kbd",
        vec![bind(Input::Key(Key::A), Input::Key(Key::B), None)],
    ));
    let first = emitted(&exec.handle_input(&input("kbd", InputEvent::Key(Key::A, InputState::Pressed))));
    assert_eq!(first, vec![(EV_KEY, 48, 1)]);
    let rebuild = exec.update_config(config("kbd", vec![bind(Input::Key(Key::A), Input::Key(Key::C), None)]));
    assert!(rebuild);
    let second = emitted(&exec.handle_input(&input("kbd", InputEvent::Key(Key::A, InputState::Pressed))));
    assert_eq!(second, vec![(EV_KEY, 46, 1)]);
    assert!(exec.advertised_keys().contains(&48));
    assert!(exec.advertised_keys().contains(&46));
    // a configuration that needs nothing new leaves the capabilities alone
    let rebuild = exec.update_config(config("kbd", vec![bind(Input::Key(Key::A), Input::Key(Key::B), None)]));
    assert!(!rebuild);
    assert_eq!(exec.advertised_keys().len(), 2);
    let rebuild = exec.update_config(Config::default());
    assert!(!rebuild);
    assert_eq!(exec.advertised_keys().len(), 2);
    let rebuild = exec.update_config(config(
        "kbd",
        vec![bind(Input::Key(Key::A), Input::RelAxis(RelAxis::HWheel), None)],
    ));
    assert!(rebuild);
    assert_eq!(exec.advertised_rel_axes(), vec![6]);
    assert_eq!(exec.advertised_keys().len(), 2);
}

#[test]
fn toggle_to_axis_bind_is_skipped() {
    let exec = ActionExecutor::from_config(config(
        "kbd",
        vec![
            bind(Input::Key(Key::A), Input::RelAxis(RelAxis::Wheel), None),
            bind(Input::Key(Key::A), Input::Btn(Btn::Left), Some("released".parse().unwrap())),
        ],
    ));
    let out = emitted(&exec.handle_input(&input("kbd", InputEvent::Key(Key::A, InputState::Pressed))));
    assert_eq!(out, vec![(EV_KEY, 272, 0)]);
    assert_eq!(exec.advertised_rel_axes(), vec![8]);
}

#[test]
fn prints_fire_on_their_condition() {
    let exec = ActionExecutor::from_config(config(
        "mouse",
        vec![Action {
            bind: Input::RelAxis(RelAxis::Wheel),
            action: ActionType::Print { when: ">0".parse().unwrap(), print: "scroll".to_string() },
        }],
    ));
    let out = exec.handle_input(&input("mouse", InputEvent::RelAxis(RelAxis::Wheel, 2)));
    assert!(matches!(&out[..], [Effect::Print(text)] if text == "scroll"));
    assert!(exec.handle_input(&input("mouse", InputEvent::RelAxis(RelAxis::Wheel, -2))).is_empty());
}

#[test]
fn last_device_with_an_id_wins() {
    let cfg = Config {
        devices: vec![
            Device { accessor: DeviceAccessor::Name("pad".to_string()), actions: vec![bind(Input::Key(Key::A), Input::Key(Key::B), None)] },
            Device { accessor: DeviceAccessor::Name("pad".to_string()), actions: vec![bind(Input::Key(Key::A), Input::Key(Key::C), None)] },
        ],
    };
    let exec = ActionExecutor::from_config(cfg);
    let out = emitted(&exec.handle_input(&input("pad", InputEvent::Key(Key::A, InputState::Pressed))));
    assert_eq!(out, vec![(EV_KEY, 46, 1)]);
}

#[test]
fn bind_values() {
    let k = Input::Key(Key::A);
    let w = Input::RelAxis(RelAxis::Wheel);
    assert_eq!(bind_value(None, k, k, 2), 2);
    assert_eq!(bind_value(None, w, k, -4), 1);
    assert_eq!(bind_value(None, w, w, -4), -4);
    assert_eq!(bind_value(Some(">0".parse().unwrap()), w, k, -4), 0);
    assert_eq!(bind_value(Some(WhenCondition::pressed()), k, k, 2), 0);
}

#[test]
fn capabilities_are_sets_of_codes() {
    let exec = ActionExecutor::from_config(Config {
        devices: vec![
            Device {
                accessor: DeviceAccessor::Name("a".to_string()),
                actions: vec![
                    bind(Input::Key(Key::A), Input::Btn(Btn::South), None),
                    bind(Input::Key(Key::B), Input::Key(Key::A), None),
                    bind(Input::Key(Key::C), Input::Key(Key::A), None),
                    bind(Input::Key(Key::D), Input::RelAxis(RelAxis::Wheel), None),
                    bind(Input::Key(Key::E), Input::AbsAxis(comb::abs_axis::AbsAxis::X), None),
                ],
            },
            Device {
                accessor: DeviceAccessor::Name("b".to_string()),
                actions: vec![bind(Input::Key(Key::A), Input::RelAxis(RelAxis::Wheel), None)],
            },
        ],
    });
    assert_eq!(exec.advertised_keys(), vec![30, 304]);
    assert_eq!(exec.advertised_rel_axes(), vec![8]);
    let empty = ActionExecutor::from_config(Config::default());
    assert!(empty.advertised_keys().is_empty());
    assert!(empty.advertised_rel_axes().is_empty());
}
