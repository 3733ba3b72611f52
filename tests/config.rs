use comb::config::{ActionType, Condition, ConditionOp, Action, WhenCondition};
use comb::input::{Input, InputState};
use comb::key::Key;

#[test]
fn condition_semantics() {
    let ops = ["<", "<=", ">", ">=", "=", "==", "!="];
    for a in [-3, -1, 0, 1, 2, 5, i32::MIN, i32::MAX] {
        for b in [-1, 0, 1, 5] {
            for op in ops {
                let c: Condition = format!("{op}{b}").parse().unwrap();
                let expected = match op {
                    "<" => a < b,
                    "<=" => a <= b,
                    ">" => a > b,
                    ">=" => a >= b,
                    "=" | "==" => a == b,
                    _ => a != b,
                };
                assert_eq!(c.test(a), expected, "{a} {op} {b}");
            }
        }
    }
}

#[test]
fn condition_parsing() {
    assert_eq!(Condition::parse_str(">0"), Ok(Condition(ConditionOp::Gt, 0)));
    assert_eq!(Condition::parse_str(">= -3"), Ok(Condition(ConditionOp::GtEq, -3)));
    assert_eq!(Condition::parse_str("== +7 "), Ok(Condition(ConditionOp::Eq, 7)));
    assert_eq!(Condition::parse_str("<-2147483648"), Ok(Condition(ConditionOp::Lt, i32::MIN)));
    assert_eq!(Condition::parse_str("<2147483648"), Err(()));
    assert_eq!(Condition::parse_str("5"), Err(()));
    assert_eq!(Condition::parse_str("<"), Err(()));
    assert_eq!(Condition::parse_str("<="), Err(()));
    assert_eq!(Condition::parse_str("x5"), Err(()));
    assert_eq!(Condition::parse_str("=>5"), Err(()));
    assert_eq!(Condition::parse_str(" >5"), Err(()));
    assert_eq!(Condition::parse_str("<5x"), Err(()));
    assert_eq!("!=".parse::<ConditionOp>(), Ok(ConditionOp::Neq));
    assert_eq!("==".parse::<ConditionOp>(), Ok(ConditionOp::Eq));
    assert_eq!("=<".parse::<ConditionOp>(), Err(()));
    assert_eq!(ConditionOp::GtEq.as_str(), ">=");
}

#[test]
fn when_conditions() {
    assert_eq!(WhenCondition::parse_str("pressed"), Ok(WhenCondition::InputState(InputState::Pressed)));
    assert_eq!(WhenCondition::parse_str(" repeated "), Ok(WhenCondition::InputState(InputState::Repeated)));
    assert_eq!(WhenCondition::parse_str(">0"), Ok(WhenCondition::Condition(Condition(ConditionOp::Gt, 0))));
    assert_eq!(WhenCondition::parse_str("sometimes"), Err(()));
    let pressed = WhenCondition::pressed();
    assert!(pressed.test(1));
    assert!(!pressed.test(0));
    assert!(!pressed.test(2));
    assert!(!pressed.test(7));
    let released: WhenCondition = "released".parse().unwrap();
    assert!(released.test(0));
    assert!(!released.test(1));
    let positive: WhenCondition = ">0".parse().unwrap();
    assert!(positive.test(3));
    assert!(!positive.test(-3));
}

fn s(text: &str) -> Option<String> {
    Some(text.to_string())
}

#[test]
fn action_kind_selection() {
    match ActionType::from_fields(s("notify-send hi"), None, None, None).unwrap() {
        ActionType::Hook { when, cmd } => {
            assert_eq!(when, WhenCondition::pressed());
            assert_eq!(cmd, "notify-send hi");
        }
        other => panic!("{other:?}"),
    }
    match ActionType::from_fields(None, s("key:esc"), None, None).unwrap() {
        ActionType::Bind { to, when } => {
            assert_eq!(to, Input::Key(Key::Esc));
            assert_eq!(when, None);
        }
        other => panic!("{other:?}"),
    }
    match ActionType::from_fields(None, None, s("scroll"), s(">0")).unwrap() {
        ActionType::Print { when, print } => {
            assert_eq!(when, WhenCondition::Condition(Condition(ConditionOp::Gt, 0)));
            assert_eq!(print, "scroll");
        }
        other => panic!("{other:?}"),
    }
    // a hook wins over a bind, and a bind whose target does not parse gives way to a print
    assert!(matches!(ActionType::from_fields(s("true"), s("key:a"), None, None), Ok(ActionType::Hook { .. })));
    assert!(matches!(ActionType::from_fields(None, s("key:nope"), s("x"), None), Ok(ActionType::Print { .. })));
    assert!(ActionType::from_fields(None, s("key:nope"), None, None).is_err());
    assert!(ActionType::from_fields(s("true"), None, None, s("often")).is_err());
    assert!(ActionType::from_fields(None, None, None, None).is_err());
}

#[test]
fn action_from_fields() {
    let a = Action::from_fields("btn:south", s("true"), None, None, s("pressed")).unwrap();
    assert_eq!(a.bind, Input::Btn(comb::btn::Btn::South));
    assert!(Action::from_fields("btn:nope", s("true"), None, None, None).is_err());
    assert!(Action::from_fields("key:a", None, None, None, None).is_err());
}

#[test]
fn unicode_white_space_is_trimmed() {
    assert_eq!(InputState::parse_str("\u{3000}released\u{a0}"), Ok(InputState::Released));
    assert_eq!(Condition::parse_str(">\u{2003}12\n"), Ok(Condition(ConditionOp::Gt, 12)));
    assert_eq!(Condition::parse_str(">1 2"), Err(()));
}
