use comb::btn::Btn;
use comb::input::Input;
use comb::key::Key;

#[test]
fn from_str() {
    let a = "key:a";
    let one = "key:1";
    let north = "btn:north";

    let extra_colon = "key:z:";

    assert_eq!(Ok(Input::Key(Key::A)), a.parse());
    assert_eq!(Ok(Input::Key(Key::Key1)), one.parse());
    assert_eq!(Ok(Input::Btn(Btn::North)), north.parse());
    assert_eq!(Err(()), extra_colon.parse::<Input>());
}

#[test]
fn to_string() {
    let a = Input::Key(Key::A);
    let one = Input::Key(Key::Key1);
    let north = Input::Btn(Btn::North);

    assert_eq!("key:a", &a.to_string());
    assert_eq!("key:1", &one.to_string());
    assert_eq!("btn:north", &north.to_string());
}

use comb::abs_axis::AbsAxis;
use comb::input::{InputEvent, InputState, EV_ABS, EV_KEY, EV_REL};
use comb::rel_axis::RelAxis;

#[test]
fn text_round_trip_of_each_class() {
    for text in ["key:capslock", "btn:dpad_up", "rel_axis:hi_res_wheel", "abs_axis:mt_tool_y", "key:102nd"] {
        let input: Input = text.parse().unwrap();
        assert_eq!(input.to_string(), text);
        assert_eq!(Input::parse_str(&input.to_string()), Ok(input));
    }
    assert_eq!(Input::parse_str("rel_axis:wheel"), Ok(Input::RelAxis(RelAxis::Wheel)));
    assert_eq!(Input::parse_str("abs_axis:wheel"), Ok(Input::AbsAxis(AbsAxis::Wheel)));
}

#[test]
fn grammar_rejections() {
    for text in ["key:z:", "key:", ":a", "mouse:a", "", "key", "keya", "key:A", " key:a", "btn:capslock"] {
        assert_eq!(Input::parse_str(text), Err(()), "{text}");
    }
}

#[test]
fn raw_codes_round_trip() {
    assert_eq!(Key::A.code(), 30);
    assert_eq!(Key::Esc.code(), 1);
    assert_eq!(Key::VolumeUp.code(), 115);
    assert_eq!(Btn::South.code(), 304);
    assert_eq!(RelAxis::Wheel.code(), 8);
    assert_eq!(AbsAxis::Hat0X.code(), 16);
    for k in [Key::A, Key::Key1, Key::F24, Key::BrightnessUp] {
        assert_eq!(Key::try_from_code(k.code()), Ok(k));
    }
    for b in [Btn::North, Btn::Btn0, Btn::DpadRight] {
        assert_eq!(Btn::try_from_code(b.code()), Ok(b));
    }
    assert_eq!(RelAxis::try_from_code(RelAxis::HiResHWheel.code()), Ok(RelAxis::HiResHWheel));
    assert_eq!(AbsAxis::try_from_code(AbsAxis::MtDistance.code()), Ok(AbsAxis::MtDistance));
    assert_eq!(Key::try_from_code(84), Err(()));
    assert_eq!(Btn::try_from_code(30), Err(()));
    assert_eq!(RelAxis::try_from_code(9), Err(()));
    assert_eq!(AbsAxis::try_from_code(40), Err(()));
}

#[test]
fn slugs_round_trip() {
    assert_eq!(Key::from_slug("esc"), Ok(Key::Esc));
    assert_eq!(Key::Key1.as_str(), "1");
    assert_eq!(Btn::from_slug(Btn::ThumbL.as_str()), Ok(Btn::ThumbL));
    assert_eq!(AbsAxis::from_slug("tilt_x"), Ok(AbsAxis::TiltX));
    assert_eq!(Key::from_slug("escape"), Err(()));
}

#[test]
fn toggles() {
    assert!(Input::Key(Key::A).is_toggle());
    assert!(Input::Btn(Btn::South).is_toggle());
    assert!(!Input::RelAxis(RelAxis::Wheel).is_toggle());
    assert!(!Input::AbsAxis(AbsAxis::X).is_toggle());
}

#[test]
fn raw_of_inputs() {
    assert_eq!(Input::Key(Key::Esc).raw(), (EV_KEY, 1));
    assert_eq!(Input::Btn(Btn::South).raw(), (EV_KEY, 304));
    assert_eq!(Input::RelAxis(RelAxis::Wheel).raw(), (EV_REL, 8));
    assert_eq!(Input::AbsAxis(AbsAxis::Y).raw(), (EV_ABS, 1));
    assert_eq!(Input::from_key_code(30), Input::Key(Key::A));
    assert_eq!(Input::from_key_code(307), Input::Btn(Btn::North));
}

#[test]
fn input_states() {
    assert_eq!(InputState::from_i32(0), Some(InputState::Released));
    assert_eq!(InputState::from_i32(1), Some(InputState::Pressed));
    assert_eq!(InputState::from_i32(2), Some(InputState::Repeated));
    assert_eq!(InputState::from_i32(3), None);
    assert_eq!(InputState::from_i32(-1), None);
    assert_eq!(InputState::Repeated.as_i32(), 2);
    assert_eq!(InputState::Released.as_str(), "released");
    assert_eq!("  pressed\n".parse::<InputState>(), Ok(InputState::Pressed));
    assert_eq!(InputState::from_name("  pressed"), Err(()));
    assert_eq!(InputState::parse_str("Pressed"), Err(()));
    assert_eq!(InputState::default(), InputState::Pressed);
}

#[test]
fn raw_decoding() {
    assert_eq!(InputEvent::try_from_raw_key(30, 1), Some(InputEvent::Key(Key::A, InputState::Pressed)));
    assert_eq!(InputEvent::try_from_raw_key(304, 0), Some(InputEvent::Btn(Btn::South, InputState::Released)));
    assert_eq!(InputEvent::try_from_raw_key(30, 5), None);
    assert_eq!(InputEvent::try_from_raw_key(84, 1), None);
    assert_eq!(InputEvent::try_from_raw_rel_axis(8, -3), Some(InputEvent::RelAxis(RelAxis::Wheel, -3)));
    assert_eq!(InputEvent::try_from_raw_rel_axis(9, 1), None);
    assert_eq!(InputEvent::try_from_raw_abs_axis(0, 512), Some(InputEvent::AbsAxis(AbsAxis::X, 512)));
    assert_eq!(InputEvent::try_from_raw(EV_REL, 8, 1), Some(InputEvent::RelAxis(RelAxis::Wheel, 1)));
    assert_eq!(InputEvent::try_from_raw(4, 4, 1), None);
    let ev = InputEvent::Key(Key::A, InputState::Repeated);
    assert_eq!(ev.input(), Input::Key(Key::A));
    assert_eq!(ev.state(), 2);
    assert_eq!(InputEvent::AbsAxis(AbsAxis::Gas, 77).state(), 77);
}
