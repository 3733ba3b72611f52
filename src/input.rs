use vstd::prelude::*;

use crate::abs_axis::{self, AbsAxis};
use crate::btn::{self, Btn};
use crate::key::{self, Key};
use crate::rel_axis::{self, RelAxis};
use crate::text::{find_char, str_eq, trim, trim_of};

verus! {

/// Kernel event type of key and button events.
pub const EV_KEY: u16 = 1;

/// Kernel event type of relative axis events.
pub const EV_REL: u16 = 2;

/// Kernel event type of absolute axis events.
pub const EV_ABS: u16 = 3;

/// One input signal of a device.
#[derive(Debug, Copy, Clone, PartialEq, Eq, Structural)]
pub enum Input {
    Key(Key),
    Btn(Btn),
    RelAxis(RelAxis),
    AbsAxis(AbsAxis),
}

impl Input {
    /// Keys and buttons are toggles; axes are not.
    pub open spec fn is_toggle_spec(self) -> bool {
        self is Key || self is Btn
    }

    /// The class part of the canonical text.
    pub open spec fn class_name(self) -> Seq<char> {
        match self {
            Input::Key(_) => "key"@,
            Input::Btn(_) => "btn"@,
            Input::RelAxis(_) => "rel_axis"@,
            Input::AbsAxis(_) => "abs_axis"@,
        }
    }

    /// The name part of the canonical text.
    pub open spec fn name(self) -> Seq<char> {
        match self {
            Input::Key(k) => k.slug(),
            Input::Btn(b) => b.slug(),
            Input::RelAxis(a) => a.slug(),
            Input::AbsAxis(a) => a.slug(),
        }
    }

    /// The canonical text `<class>:<name>`.
    pub open spec fn text(self) -> Seq<char> {
        self.class_name() + ":"@ + self.name()
    }

    /// The input whose canonical text is `s`, if any.
    pub open spec fn parse_spec(s: Seq<char>) -> Result<Input, ()> {
        if exists|x: Input| x.text() == s {
            Ok(choose|x: Input| x.text() == s)
        } else {
            Err(())
        }
    }

    /// The kernel event type and code that stand for this input.
    pub open spec fn raw_spec(self) -> (u16, u16) {
        match self {
            Input::Key(k) => (EV_KEY, k.code_spec()),
            Input::Btn(b) => (EV_KEY, b.code_spec()),
            Input::RelAxis(a) => (EV_REL, a.code_spec()),
            Input::AbsAxis(a) => (EV_ABS, a.code_spec()),
        }
    }

    /// The input behind a key-event code: a key if the code is a key's, else a button.
    pub open spec fn from_key_code_spec(c: u16) -> Option<Input> {
        match Key::from_code_spec(c) {
            Ok(k) => Some(Input::Key(k)),
            Err(_) => match Btn::from_code_spec(c) {
                Ok(b) => Some(Input::Btn(b)),
                Err(_) => None,
            },
        }
    }

    pub fn is_toggle(&self) -> (r: bool)
        ensures
            r == self.is_toggle_spec(),
    {
        match self {
            Input::Key(_) => true,
            Input::Btn(_) => true,
            Input::RelAxis(_) => false,
            Input::AbsAxis(_) => false,
        }
    }

    /// The kernel event type and code that stand for this input.
    pub fn raw(&self) -> (r: (u16, u16))
        ensures
            r == self.raw_spec(),
    {
        match self {
            Input::Key(k) => (EV_KEY, k.code()),
            Input::Btn(b) => (EV_KEY, b.code()),
            Input::RelAxis(a) => (EV_REL, a.code()),
            Input::AbsAxis(a) => (EV_ABS, a.code()),
        }
    }

    /// The input behind a key-event code, which must be the code of a key or of a button.
    pub fn from_key_code(c: u16) -> (r: Input)
        requires
            Input::from_key_code_spec(c) is Some,
        ensures
            Input::from_key_code_spec(c) == Some(r),
    {
        match Key::try_from_code(c) {
            Ok(k) => Input::Key(k),
            Err(_) => match Btn::try_from_code(c) {
                Ok(b) => Input::Btn(b),
                Err(_) => Input::Btn(Btn::Left),
            },
        }
    }

    /// Reads the canonical text `<class>:<name>`; the text is split at its first `:`.
    pub fn parse_str(s: &str) -> (r: Result<Input, ()>)
        ensures
            r == Input::parse_spec(s@),
    {
        let n = s.unicode_len();
        let colon = find_char(s, ':');
        let r: Result<Input, ()> = match colon {
            None => Err(()),
            Some(i) => {
                let prefix = s.substring_char(0, i);
                let field = s.substring_char(i + 1, n);
                proof {
                    assert(s@ =~= prefix@ + ":"@ + field@) by {
                        reveal_strlit(":");
                    }
                }
                if str_eq(prefix, "key") {
                    match Key::from_slug(field) {
                        Ok(k) => Ok(Input::Key(k)),
                        Err(_) => Err(()),
                    }
                } else if str_eq(prefix, "btn") {
                    match Btn::from_slug(field) {
                        Ok(b) => Ok(Input::Btn(b)),
                        Err(_) => Err(()),
                    }
                } else if str_eq(prefix, "rel_axis") {
                    match RelAxis::from_slug(field) {
                        Ok(a) => Ok(Input::RelAxis(a)),
                        Err(_) => Err(()),
                    }
                } else if str_eq(prefix, "abs_axis") {
                    match AbsAxis::from_slug(field) {
                        Ok(a) => Ok(Input::AbsAxis(a)),
                        Err(_) => Err(()),
                    }
                } else {
                    Err(())
                }
            },
        };
        proof {
            match r {
                Ok(x) => {
                    assert(x.text() == s@);
                    let y = choose|y: Input| y.text() == s@;
                    lemma_text_injective(x, y);
                },
                Err(_) => {
                    assert forall|x: Input| x.text() != s@ by {
                        if x.text() == s@ {
                            lemma_text_shape(x);
                            lemma_class_names_distinct();
                            let l = x.class_name().len();
                            assert(colon == Some(l as usize));
                            assert(s@.subrange(0, l as int) == x.class_name());
                            assert(s@.subrange(l + 1 as int, s@.len() as int) == x.name());
                        }
                    }
                },
            }
        }
        r
    }

    /// The canonical text `<class>:<name>`.
    pub fn to_string(&self) -> (r: String)
        ensures
            r@ == self.text(),
    {
        let (class, name) = match self {
            Input::Key(k) => ("key", k.as_str()),
            Input::Btn(b) => ("btn", b.as_str()),
            Input::RelAxis(a) => ("rel_axis", a.as_str()),
            Input::AbsAxis(a) => ("abs_axis", a.as_str()),
        };
        let mut r = class.to_owned();
        r.append(":");
        r.append(name);
        r
    }
}

impl std::str::FromStr for Input {
    type Err = ();

    fn from_str(s: &str) -> Result<Input, ()> {
        Input::parse_str(s)
    }
}

proof fn lemma_class_names_distinct()
    ensures
        "key"@ != "btn"@,
        "key"@ != "rel_axis"@,
        "key"@ != "abs_axis"@,
        "btn"@ != "rel_axis"@,
        "btn"@ != "abs_axis"@,
        "rel_axis"@ != "abs_axis"@,
{
    reveal_strlit("key");
    reveal_strlit("btn");
    reveal_strlit("rel_axis");
    reveal_strlit("abs_axis");
    assert("key"@[0] != "btn"@[0]);
    assert("rel_axis"@[0] != "abs_axis"@[0]);
}

/// The canonical text of `x` holds its class name, then its only `:` before the name,
/// then its name.
proof fn lemma_text_shape(x: Input)
    ensures
        ({
            let s = x.text();
            let l = x.class_name().len();
            &&& s.len() == l + 1 + x.name().len()
            &&& s[l as int] == ':'
            &&& forall|j: int| 0 <= j < l ==> s[j] != ':'
            &&& s.subrange(0, l as int) == x.class_name()
            &&& s.subrange(l + 1 as int, s.len() as int) == x.name()
            &&& s[0] == x.class_name()[0]
        }),
{
    reveal_strlit("key");
    reveal_strlit("btn");
    reveal_strlit("rel_axis");
    reveal_strlit("abs_axis");
    reveal_strlit(":");
    let s = x.text();
    let l = x.class_name().len();
    assert(s.subrange(0, l as int) =~= x.class_name());
    assert(s.subrange(l + 1 as int, s.len() as int) =~= x.name());
}

/// No two inputs share a canonical text.
pub proof fn lemma_text_injective(a: Input, b: Input)
    requires
        a.text() == b.text(),
    ensures
        a == b,
{
    lemma_text_shape(a);
    lemma_text_shape(b);
    reveal_strlit("key");
    reveal_strlit("btn");
    reveal_strlit("rel_axis");
    reveal_strlit("abs_axis");
    assert(a.class_name() == b.class_name());
    assert(a.name() == b.name());
    match (a, b) {
        (Input::Key(x), Input::Key(y)) => key::lemma_slug_injective(x, y),
        (Input::Btn(x), Input::Btn(y)) => btn::lemma_slug_injective(x, y),
        (Input::RelAxis(x), Input::RelAxis(y)) => rel_axis::lemma_slug_injective(x, y),
        (Input::AbsAxis(x), Input::AbsAxis(y)) => abs_axis::lemma_slug_injective(x, y),
        _ => {},
    }
}

/// Reading the canonical text of an input gives that input back, and whatever reads as an
/// input is exactly that input's canonical text.
pub proof fn lemma_text_round_trip(x: Input, s: Seq<char>)
    ensures
        Input::parse_spec(x.text()) == Ok::<Input, ()>(x),
        Input::parse_spec(s) matches Ok(y) ==> y.text() == s,
{
    lemma_text_injective(x, choose|y: Input| y.text() == x.text());
}

/// The state of a key or button.
#[derive(Debug, Copy, Clone, PartialEq, Eq, Structural)]
pub enum InputState {
    Pressed,
    Released,
    Repeated,
}

impl InputState {
    /// The raw value the kernel reports for the state.
    pub open spec fn value(self) -> i32 {
        match self {
            InputState::Pressed => 1,
            InputState::Released => 0,
            InputState::Repeated => 2,
        }
    }

    /// The state whose raw value is `v`, if any.
    pub open spec fn from_i32_spec(v: i32) -> Option<InputState> {
        match v {
            1 => Some(InputState::Pressed),
            0 => Some(InputState::Released),
            2 => Some(InputState::Repeated),
            _ => None,
        }
    }

    /// The textual form of the state.
    pub open spec fn name(self) -> Seq<char> {
        match self {
            InputState::Pressed => "pressed"@,
            InputState::Released => "released"@,
            InputState::Repeated => "repeated"@,
        }
    }

    /// The state whose textual form is `s`, if any.
    pub open spec fn from_name_spec(s: Seq<char>) -> Result<InputState, ()> {
        if exists|k: InputState| k.name() == s {
            Ok(choose|k: InputState| k.name() == s)
        } else {
            Err(())
        }
    }

    pub fn from_i32(v: i32) -> (r: Option<InputState>)
        ensures
            r == InputState::from_i32_spec(v),
    {
        match v {
            1 => Some(InputState::Pressed),
            0 => Some(InputState::Released),
            2 => Some(InputState::Repeated),
            _ => None,
        }
    }

    pub fn as_i32(&self) -> (r: i32)
        ensures
            r == self.value(),
    {
        match self {
            InputState::Pressed => 1,
            InputState::Released => 0,
            InputState::Repeated => 2,
        }
    }

    pub fn as_str(&self) -> (r: &'static str)
        ensures
            r@ == self.name(),
    {
        match self {
            InputState::Pressed => "pressed",
            InputState::Released => "released",
            InputState::Repeated => "repeated",
        }
    }

    /// Reads a state from exactly its textual form.
    pub fn from_name(s: &str) -> (r: Result<InputState, ()>)
        ensures
            r == InputState::from_name_spec(s@),
    {
        let r = if str_eq(s, "pressed") {
            Ok(InputState::Pressed)
        } else if str_eq(s, "released") {
            Ok(InputState::Released)
        } else if str_eq(s, "repeated") {
            Ok(InputState::Repeated)
        } else {
            Err(())
        };
        proof {
            match r {
                Ok(k) => {
                    assert(k.name() == s@);
                    lemma_state_name_injective(k, choose|j: InputState| j.name() == s@);
                },
                Err(_) => {
                    assert forall|k: InputState| k.name() != s@ by {}
                },
            }
        }
        r
    }

    /// Reads a state from its textual form, ignoring surrounding white space.
    pub fn parse_str(s: &str) -> (r: Result<InputState, ()>)
        ensures
            r == InputState::from_name_spec(trim_of(s@)),
    {
        InputState::from_name(trim(s))
    }
}

impl std::default::Default for InputState {
    fn default() -> (r: InputState)
        ensures
            r == InputState::Pressed,
    {
        InputState::Pressed
    }
}

impl std::str::FromStr for InputState {
    type Err = ();

    fn from_str(s: &str) -> Result<InputState, ()> {
        InputState::parse_str(s)
    }
}

/// No two states share a textual form.
pub proof fn lemma_state_name_injective(a: InputState, b: InputState)
    requires
        a.name() == b.name(),
    ensures
        a == b,
{
    reveal_strlit("pressed");
    reveal_strlit("released");
    reveal_strlit("repeated");
    assert("pressed"@[0] != "released"@[0]);
    assert("pressed"@[0] != "repeated"@[0]);
    assert("released"@[2] != "repeated"@[2]);
}

/// Decoding the raw value of a state gives that state back, and whatever decodes to a state
/// is exactly that state's raw value.
pub proof fn lemma_state_value_round_trip(k: InputState, v: i32)
    ensures
        InputState::from_i32_spec(k.value()) == Some(k),
        InputState::from_i32_spec(v) matches Some(j) ==> j.value() == v,
{
}

/// An input together with its current value.
#[derive(Debug, Copy, Clone, PartialEq, Eq, Structural)]
pub enum InputEvent {
    Key(Key, InputState),
    Btn(Btn, InputState),
    RelAxis(RelAxis, i32),
    AbsAxis(AbsAxis, i32),
}

impl InputEvent {
    pub open spec fn input_spec(self) -> Input {
        match self {
            InputEvent::Key(k, _) => Input::Key(k),
            InputEvent::Btn(b, _) => Input::Btn(b),
            InputEvent::RelAxis(a, _) => Input::RelAxis(a),
            InputEvent::AbsAxis(a, _) => Input::AbsAxis(a),
        }
    }

    /// The raw value: the state's value for keys and buttons, the axis value otherwise.
    pub open spec fn state_spec(self) -> i32 {
        match self {
            InputEvent::Key(_, s) => s.value(),
            InputEvent::Btn(_, s) => s.value(),
            InputEvent::RelAxis(_, v) => v,
            InputEvent::AbsAxis(_, v) => v,
        }
    }

    /// The event for a key-event code and value: the code must name a key or a button,
    /// and the value must be a state.
    pub open spec fn from_raw_key_spec(code: u16, value: i32) -> Option<InputEvent> {
        match (Input::from_key_code_spec(code), InputState::from_i32_spec(value)) {
            (Some(Input::Key(k)), Some(s)) => Some(InputEvent::Key(k, s)),
            (Some(Input::Btn(b)), Some(s)) => Some(InputEvent::Btn(b, s)),
            _ => None,
        }
    }

    pub open spec fn from_raw_rel_axis_spec(code: u16, value: i32) -> Option<InputEvent> {
        match RelAxis::from_code_spec(code) {
            Ok(a) => Some(InputEvent::RelAxis(a, value)),
            Err(_) => None,
        }
    }

    pub open spec fn from_raw_abs_axis_spec(code: u16, value: i32) -> Option<InputEvent> {
        match AbsAxis::from_code_spec(code) {
            Ok(a) => Some(InputEvent::AbsAxis(a, value)),
            Err(_) => None,
        }
    }

    /// The event that a raw kernel event of this type, code and value stands for, if any.
    pub open spec fn from_raw_spec(type_: u16, code: u16, value: i32) -> Option<InputEvent> {
        if type_ == EV_KEY {
            InputEvent::from_raw_key_spec(code, value)
        } else if type_ == EV_REL {
            InputEvent::from_raw_rel_axis_spec(code, value)
        } else if type_ == EV_ABS {
            InputEvent::from_raw_abs_axis_spec(code, value)
        } else {
            None
        }
    }

    pub fn try_from_raw_key(code: u16, value: i32) -> (r: Option<InputEvent>)
        ensures
            r == InputEvent::from_raw_key_spec(code, value),
    {
        match Key::try_from_code(code) {
            Ok(k) => match InputState::from_i32(value) {
                Some(s) => Some(InputEvent::Key(k, s)),
                None => None,
            },
            Err(_) => match Btn::try_from_code(code) {
                Ok(b) => match InputState::from_i32(value) {
                    Some(s) => Some(InputEvent::Btn(b, s)),
                    None => None,
                },
                Err(_) => None,
            },
        }
    }

    pub fn try_from_raw_rel_axis(code: u16, value: i32) -> (r: Option<InputEvent>)
        ensures
            r == InputEvent::from_raw_rel_axis_spec(code, value),
    {
        match RelAxis::try_from_code(code) {
            Ok(a) => Some(InputEvent::RelAxis(a, value)),
            Err(_) => None,
        }
    }

    pub fn try_from_raw_abs_axis(code: u16, value: i32) -> (r: Option<InputEvent>)
        ensures
            r == InputEvent::from_raw_abs_axis_spec(code, value),
    {
        match AbsAxis::try_from_code(code) {
            Ok(a) => Some(InputEvent::AbsAxis(a, value)),
            Err(_) => None,
        }
    }

    pub fn try_from_raw(type_: u16, code: u16, value: i32) -> (r: Option<InputEvent>)
        ensures
            r == InputEvent::from_raw_spec(type_, code, value),
    {
        if type_ == EV_KEY {
            InputEvent::try_from_raw_key(code, value)
        } else if type_ == EV_REL {
            InputEvent::try_from_raw_rel_axis(code, value)
        } else if type_ == EV_ABS {
            InputEvent::try_from_raw_abs_axis(code, value)
        } else {
            None
        }
    }

    pub fn input(&self) -> (r: Input)
        ensures
            r == self.input_spec(),
    {
        match self {
            InputEvent::Key(k, _) => Input::Key(*k),
            InputEvent::Btn(b, _) => Input::Btn(*b),
            InputEvent::RelAxis(a, _) => Input::RelAxis(*a),
            InputEvent::AbsAxis(a, _) => Input::AbsAxis(*a),
        }
    }

    pub fn state(&self) -> (r: i32)
        ensures
            r == self.state_spec(),
    {
        match self {
            InputEvent::Key(_, s) => s.as_i32(),
            InputEvent::Btn(_, s) => s.as_i32(),
            InputEvent::RelAxis(_, v) => *v,
            InputEvent::AbsAxis(_, v) => *v,
        }
    }
}

} // verus!
