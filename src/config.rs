use vstd::prelude::*;

use crate::device::DeviceAccessor;
use crate::input::{Input, InputState};
use crate::text::{decimal_text, decimal_value, lemma_decimal_text, opt_view, parse_i32, trim, trim_of};

verus! {

/// A relational operator of a condition.
#[derive(Debug, Copy, Clone, PartialEq, Eq, Structural)]
pub enum ConditionOp {
    Lt,
    Gt,
    LtEq,
    GtEq,
    Eq,
    Neq,
}

impl ConditionOp {
    /// Whether `a op b` holds.
    pub open spec fn holds(self, a: i32, b: i32) -> bool {
        match self {
            ConditionOp::Lt => a < b,
            ConditionOp::LtEq => a <= b,
            ConditionOp::Gt => a > b,
            ConditionOp::GtEq => a >= b,
            ConditionOp::Eq => a == b,
            ConditionOp::Neq => a != b,
        }
    }

    /// The operator spelled by `first`, or by `first` followed by `=` when `eq_follows`.
    pub open spec fn from_chars_spec(first: char, eq_follows: bool) -> Option<ConditionOp> {
        if eq_follows {
            if first == '<' {
                Some(ConditionOp::LtEq)
            } else if first == '>' {
                Some(ConditionOp::GtEq)
            } else if first == '=' {
                Some(ConditionOp::Eq)
            } else if first == '!' {
                Some(ConditionOp::Neq)
            } else {
                None
            }
        } else {
            if first == '<' {
                Some(ConditionOp::Lt)
            } else if first == '>' {
                Some(ConditionOp::Gt)
            } else if first == '=' {
                Some(ConditionOp::Eq)
            } else {
                None
            }
        }
    }

    /// The operator spelled by `s`: one of `<`, `<=`, `>`, `>=`, `=`, `==`, `!=`.
    pub open spec fn from_text_spec(s: Seq<char>) -> Option<ConditionOp> {
        if s.len() == 1 {
            ConditionOp::from_chars_spec(s[0], false)
        } else if s.len() == 2 && s[1] == '=' {
            ConditionOp::from_chars_spec(s[0], true)
        } else {
            None
        }
    }

    fn from_chars(first: char, eq_follows: bool) -> (r: Option<ConditionOp>)
        ensures
            r == ConditionOp::from_chars_spec(first, eq_follows),
    {
        if eq_follows {
            if first == '<' {
                Some(ConditionOp::LtEq)
            } else if first == '>' {
                Some(ConditionOp::GtEq)
            } else if first == '=' {
                Some(ConditionOp::Eq)
            } else if first == '!' {
                Some(ConditionOp::Neq)
            } else {
                None
            }
        } else {
            if first == '<' {
                Some(ConditionOp::Lt)
            } else if first == '>' {
                Some(ConditionOp::Gt)
            } else if first == '=' {
                Some(ConditionOp::Eq)
            } else {
                None
            }
        }
    }

    pub fn from_text(s: &str) -> (r: Option<ConditionOp>)
        ensures
            r == ConditionOp::from_text_spec(s@),
    {
        let n = s.unicode_len();
        if n == 1 {
            ConditionOp::from_chars(s.get_char(0), false)
        } else if n == 2 && s.get_char(1) == '=' {
            ConditionOp::from_chars(s.get_char(0), true)
        } else {
            None
        }
    }

    /// The canonical spelling of the operator.
    pub open spec fn spelling(self) -> Seq<char> {
        match self {
            ConditionOp::Lt => "<"@,
            ConditionOp::LtEq => "<="@,
            ConditionOp::Gt => ">"@,
            ConditionOp::GtEq => ">="@,
            ConditionOp::Eq => "="@,
            ConditionOp::Neq => "!="@,
        }
    }

    /// The canonical spelling of the operator.
    pub fn as_str(&self) -> (r: &'static str)
        ensures
            r@ == self.spelling(),
    {
        match self {
            ConditionOp::Lt => "<",
            ConditionOp::LtEq => "<=",
            ConditionOp::Gt => ">",
            ConditionOp::GtEq => ">=",
            ConditionOp::Eq => "=",
            ConditionOp::Neq => "!=",
        }
    }
}

/// A relational predicate `<op> <operand>` over a raw value.
#[derive(Debug, Copy, Clone, PartialEq, Eq, Structural)]
pub struct Condition(pub ConditionOp, pub i32);

impl Condition {
    /// The condition spelled by `s`: an operator directly followed by a decimal operand,
    /// white space around the operand allowed.
    pub open spec fn parse_spec(s: Seq<char>) -> Result<Condition, ()> {
        if s.len() < 2 {
            Err(())
        } else {
            let eq_follows = s[1] == '=';
            let rest = if eq_follows {
                s.skip(2)
            } else {
                s.skip(1)
            };
            match (ConditionOp::from_chars_spec(s[0], eq_follows), decimal_value(trim_of(rest))) {
                (Some(op), Some(v)) => if i32::MIN <= v <= i32::MAX {
                    Ok(Condition(op, v as i32))
                } else {
                    Err(())
                },
                _ => Err(()),
            }
        }
    }

    pub fn test(&self, v: i32) -> (r: bool)
        ensures
            r == self.0.holds(v, self.1),
    {
        match self.0 {
            ConditionOp::Lt => v < self.1,
            ConditionOp::LtEq => v <= self.1,
            ConditionOp::Gt => v > self.1,
            ConditionOp::GtEq => v >= self.1,
            ConditionOp::Eq => v == self.1,
            ConditionOp::Neq => v != self.1,
        }
    }

    pub fn parse_str(s: &str) -> (r: Result<Condition, ()>)
        ensures
            r == Condition::parse_spec(s@),
    {
        let n = s.unicode_len();
        if n < 2 {
            return Err(());
        }
        let eq_follows = s.get_char(1) == '=';
        let skip: usize = if eq_follows {
            2
        } else {
            1
        };
        let rest = s.substring_char(skip, n);
        proof {
            assert(rest@ =~= s@.skip(skip as int));
        }
        let op = ConditionOp::from_chars(s.get_char(0), eq_follows);
        match op {
            None => Err(()),
            Some(op) => match parse_i32(trim(rest)) {
                Ok(v) => Ok(Condition(op, v)),
                Err(_) => Err(()),
            },
        }
    }
}

impl std::str::FromStr for Condition {
    type Err = ();

    fn from_str(s: &str) -> Result<Condition, ()> {
        Condition::parse_str(s)
    }
}

/// When an action fires: on a given key state, or when the raw value meets a condition.
#[derive(Debug, Copy, Clone, PartialEq, Eq, Structural)]
pub enum WhenCondition {
    InputState(InputState),
    Condition(Condition),
}

impl WhenCondition {
    pub open spec fn test_spec(self, value: i32) -> bool {
        match self {
            WhenCondition::InputState(s) => InputState::from_i32_spec(value) == Some(s),
            WhenCondition::Condition(c) => c.0.holds(value, c.1),
        }
    }

    /// A state name if `s` is one (white space around it allowed), else a condition.
    pub open spec fn parse_spec(s: Seq<char>) -> Result<WhenCondition, ()> {
        match InputState::from_name_spec(trim_of(s)) {
            Ok(st) => Ok(WhenCondition::InputState(st)),
            Err(_) => match Condition::parse_spec(s) {
                Ok(c) => Ok(WhenCondition::Condition(c)),
                Err(_) => Err(()),
            },
        }
    }

    pub fn pressed() -> (r: WhenCondition)
        ensures
            r == WhenCondition::InputState(InputState::Pressed),
    {
        WhenCondition::InputState(InputState::Pressed)
    }

    pub fn test(&self, value: i32) -> (r: bool)
        ensures
            r == self.test_spec(value),
    {
        match self {
            WhenCondition::InputState(state) => match InputState::from_i32(value) {
                Some(v) => *state == v,
                None => false,
            },
            WhenCondition::Condition(condition) => condition.test(value),
        }
    }

    pub fn parse_str(s: &str) -> (r: Result<WhenCondition, ()>)
        ensures
            r == WhenCondition::parse_spec(s@),
    {
        match InputState::parse_str(s) {
            Ok(st) => Ok(WhenCondition::InputState(st)),
            Err(_) => match Condition::parse_str(s) {
                Ok(c) => Ok(WhenCondition::Condition(c)),
                Err(_) => Err(()),
            },
        }
    }
}

impl std::str::FromStr for WhenCondition {
    type Err = ();

    fn from_str(s: &str) -> Result<WhenCondition, ()> {
        WhenCondition::parse_str(s)
    }
}

/// A condition written as an operator's spelling followed by the decimal text of an operand
/// reads as that operator with that operand.
pub proof fn lemma_condition_text(t: Seq<char>, op: ConditionOp, b: i32)
    requires
        ConditionOp::from_text_spec(t) == Some(op),
    ensures
        Condition::parse_spec(t + decimal_text(b as int)) == Ok::<Condition, ()>(Condition(op, b)),
{
    lemma_decimal_text(b as int);
    let d = decimal_text(b as int);
    let s = t + d;
    if t.len() == 1 {
        assert(s[1] == d[0]);
        assert(s.skip(1) =~= d);
    } else {
        assert(s.skip(2) =~= d);
    }
}

/// Reading the canonical spelling of an operator gives that operator back.
pub proof fn lemma_spelling_round_trip(op: ConditionOp)
    ensures
        ConditionOp::from_text_spec(op.spelling()) == Some(op),
{
    reveal_strlit("<");
    reveal_strlit("<=");
    reveal_strlit(">");
    reveal_strlit(">=");
    reveal_strlit("=");
    reveal_strlit("!=");
}

/// Every operator spelling tests a value against the operand as the arithmetic relation
/// of that spelling does.
pub proof fn lemma_condition_semantics(a: i32, b: i32)
    ensures
        ConditionOp::from_text_spec("<"@) == Some(ConditionOp::Lt),
        ConditionOp::from_text_spec("<="@) == Some(ConditionOp::LtEq),
        ConditionOp::from_text_spec(">"@) == Some(ConditionOp::Gt),
        ConditionOp::from_text_spec(">="@) == Some(ConditionOp::GtEq),
        ConditionOp::from_text_spec("="@) == Some(ConditionOp::Eq),
        ConditionOp::from_text_spec("=="@) == Some(ConditionOp::Eq),
        ConditionOp::from_text_spec("!="@) == Some(ConditionOp::Neq),
        ConditionOp::Lt.holds(a, b) == (a < b),
        ConditionOp::LtEq.holds(a, b) == (a <= b),
        ConditionOp::Gt.holds(a, b) == (a > b),
        ConditionOp::GtEq.holds(a, b) == (a >= b),
        ConditionOp::Eq.holds(a, b) == (a == b),
        ConditionOp::Neq.holds(a, b) == (a != b),
{
    reveal_strlit("<");
    reveal_strlit("<=");
    reveal_strlit(">");
    reveal_strlit(">=");
    reveal_strlit("=");
    reveal_strlit("==");
    reveal_strlit("!=");
}

impl std::str::FromStr for ConditionOp {
    type Err = ();

    fn from_str(s: &str) -> Result<ConditionOp, ()> {
        match ConditionOp::from_text(s) {
            Some(op) => Ok(op),
            None => Err(()),
        }
    }
}

/// What an action does when its input fires.
#[derive(Debug, Clone)]
pub enum ActionType {
    /// Runs `cmd` in a shell.
    Hook { when: WhenCondition, cmd: String },
    /// Re-emits the input as `to` on the virtual device.
    Bind { to: Input, when: Option<WhenCondition> },
    /// Reports `print`.
    Print { when: WhenCondition, print: String },
}

/// The mathematical value of an [`ActionType`].
pub enum ActionTypeView {
    Hook { when: WhenCondition, cmd: Seq<char> },
    Bind { to: Input, when: Option<WhenCondition> },
    Print { when: WhenCondition, print: Seq<char> },
}

impl View for ActionType {
    type V = ActionTypeView;

    open spec fn view(&self) -> ActionTypeView {
        match self {
            ActionType::Hook { when, cmd } => ActionTypeView::Hook { when: *when, cmd: cmd@ },
            ActionType::Bind { to, when } => ActionTypeView::Bind { to: *to, when: *when },
            ActionType::Print { when, print } => ActionTypeView::Print {
                when: *when,
                print: print@,
            },
        }
    }
}

impl ActionType {
    /// The optional `when` field: absent, or a condition that must parse.
    pub open spec fn when_field_spec(when: Option<Seq<char>>) -> Result<Option<WhenCondition>, ()> {
        match when {
            None => Ok(None),
            Some(w) => match WhenCondition::parse_spec(w) {
                Ok(c) => Ok(Some(c)),
                Err(_) => Err(()),
            },
        }
    }

    /// The action that a table with these fields describes. The first kind that fits wins:
    /// a hook when `cmd` is there, a bind when `to` is there and names an input, a print
    /// when `print` is there. Hooks and prints fire on a press unless `when` says otherwise;
    /// binds fire always unless `when` says otherwise. A `when` that does not parse fits no
    /// kind.
    pub open spec fn from_fields_spec(
        cmd: Option<Seq<char>>,
        to: Option<Seq<char>>,
        print: Option<Seq<char>>,
        when: Option<Seq<char>>,
    ) -> Result<ActionTypeView, ()> {
        match ActionType::when_field_spec(when) {
            Err(_) => Err(()),
            Ok(w) => {
                let or_pressed = match w {
                    Some(c) => c,
                    None => WhenCondition::InputState(InputState::Pressed),
                };
                if cmd is Some {
                    Ok(ActionTypeView::Hook { when: or_pressed, cmd: cmd->0 })
                } else if to is Some && Input::parse_spec(to->0) is Ok {
                    Ok(ActionTypeView::Bind { to: Input::parse_spec(to->0)->Ok_0, when: w })
                } else if print is Some {
                    Ok(ActionTypeView::Print { when: or_pressed, print: print->0 })
                } else {
                    Err(())
                }
            },
        }
    }

    pub fn from_fields(
        cmd: Option<String>,
        to: Option<String>,
        print: Option<String>,
        when: Option<String>,
    ) -> (r: Result<ActionType, ()>)
        ensures
            match r {
                Ok(a) => ActionType::from_fields_spec(opt_view(cmd), opt_view(to), opt_view(print), opt_view(when)) == Ok::<ActionTypeView, ()>(a@),
                Err(_) => ActionType::from_fields_spec(opt_view(cmd), opt_view(to), opt_view(print), opt_view(when)) is Err,
            },
    {
        let w: Option<WhenCondition> = match &when {
            None => None,
            Some(text) => match WhenCondition::parse_str(text.as_str()) {
                Ok(c) => Some(c),
                Err(_) => {
                    return Err(());
                },
            },
        };
        let or_pressed = match w {
            Some(c) => c,
            None => WhenCondition::pressed(),
        };
        match cmd {
            Some(cmd) => {
                return Ok(ActionType::Hook { when: or_pressed, cmd });
            },
            None => {},
        }
        match &to {
            Some(text) => match Input::parse_str(text.as_str()) {
                Ok(target) => {
                    return Ok(ActionType::Bind { to: target, when: w });
                },
                Err(_) => {},
            },
            None => {},
        }
        match print {
            Some(print) => Ok(ActionType::Print { when: or_pressed, print }),
            None => Err(()),
        }
    }
}

/// A binding: an input of a device and what to do when it fires.
#[derive(Debug, Clone)]
pub struct Action {
    pub bind: Input,
    pub action: ActionType,
}

impl Action {
    /// The action that a table with these fields describes: `bind` must name an input, and
    /// the other fields select the kind as [`ActionType::from_fields_spec`] says.
    pub fn from_fields(
        bind: &str,
        cmd: Option<String>,
        to: Option<String>,
        print: Option<String>,
        when: Option<String>,
    ) -> (r: Result<Action, ()>)
        ensures
            match r {
                Ok(a) => Input::parse_spec(bind@) == Ok::<Input, ()>(a.bind)
                    && ActionType::from_fields_spec(opt_view(cmd), opt_view(to), opt_view(print), opt_view(when)) == Ok::<ActionTypeView, ()>(a.action@),
                Err(_) => Input::parse_spec(bind@) is Err
                    || ActionType::from_fields_spec(opt_view(cmd), opt_view(to), opt_view(print), opt_view(when)) is Err,
            },
    {
        let input = match Input::parse_str(bind) {
            Ok(input) => input,
            Err(_) => {
                return Err(());
            },
        };
        match ActionType::from_fields(cmd, to, print, when) {
            Ok(action) => Ok(Action { bind: input, action }),
            Err(_) => Err(()),
        }
    }
}

/// A configured device and its bindings.
#[derive(Debug, Clone)]
pub struct Device {
    pub accessor: DeviceAccessor,
    pub actions: Vec<Action>,
}

/// The whole configuration.
#[derive(Debug, Clone)]
pub struct Config {
    pub devices: Vec<Device>,
}

impl std::default::Default for Config {
    fn default() -> (r: Config)
        ensures
            r.devices@.len() == 0,
    {
        Config { devices: Vec::new() }
    }
}

} // verus!
