use vstd::prelude::*;

use crate::text::str_eq;

verus! {

/// Mouse, joystick and gamepad buttons, each backed by the kernel's numeric key code.
#[derive(Debug, Copy, Clone, PartialEq, Eq, Structural)]
pub enum Btn {
    Btn0,
    Btn1,
    Btn2,
    Btn3,
    Btn4,
    Btn5,
    Btn6,
    Btn7,
    Btn8,
    Btn9,
    Left,
    Right,
    Middle,
    Side,
    Extra,
    Forward,
    Back,
    Task,
    Trigger,
    Thumb,
    Thumb2,
    Top,
    Top2,
    Pinkie,
    South,
    East,
    C,
    North,
    West,
    Z,
    Tl,
    Tr,
    Tl2,
    Tr2,
    Select,
    Start,
    Mode,
    ThumbL,
    ThumbR,
    DpadUp,
    DpadDown,
    DpadLeft,
    DpadRight,
}

impl Btn {
    /// The canonical lowercase name of the variant.
    pub open spec fn slug(self) -> Seq<char> {
        match self {
            Btn::Btn0 => "0"@,
            Btn::Btn1 => "1"@,
            Btn::Btn2 => "2"@,
            Btn::Btn3 => "3"@,
            Btn::Btn4 => "4"@,
            Btn::Btn5 => "5"@,
            Btn::Btn6 => "6"@,
            Btn::Btn7 => "7"@,
            Btn::Btn8 => "8"@,
            Btn::Btn9 => "9"@,
            Btn::Left => "left"@,
            Btn::Right => "right"@,
            Btn::Middle => "middle"@,
            Btn::Side => "side"@,
            Btn::Extra => "extra"@,
            Btn::Forward => "forward"@,
            Btn::Back => "back"@,
            Btn::Task => "task"@,
            Btn::Trigger => "trigger"@,
            Btn::Thumb => "thumb"@,
            Btn::Thumb2 => "thumb2"@,
            Btn::Top => "top"@,
            Btn::Top2 => "top2"@,
            Btn::Pinkie => "pinkie"@,
            Btn::South => "south"@,
            Btn::East => "east"@,
            Btn::C => "c"@,
            Btn::North => "north"@,
            Btn::West => "west"@,
            Btn::Z => "z"@,
            Btn::Tl => "tl"@,
            Btn::Tr => "tr"@,
            Btn::Tl2 => "tl2"@,
            Btn::Tr2 => "tr2"@,
            Btn::Select => "select"@,
            Btn::Start => "start"@,
            Btn::Mode => "mode"@,
            Btn::ThumbL => "thumbl"@,
            Btn::ThumbR => "thumbr"@,
            Btn::DpadUp => "dpad_up"@,
            Btn::DpadDown => "dpad_down"@,
            Btn::DpadLeft => "dpad_left"@,
            Btn::DpadRight => "dpad_right"@,
        }
    }

    /// The kernel's key code of the variant.
    pub open spec fn code_spec(self) -> u16 {
        match self {
            Btn::Btn0 => 256,
            Btn::Btn1 => 257,
            Btn::Btn2 => 258,
            Btn::Btn3 => 259,
            Btn::Btn4 => 260,
            Btn::Btn5 => 261,
            Btn::Btn6 => 262,
            Btn::Btn7 => 263,
            Btn::Btn8 => 264,
            Btn::Btn9 => 265,
            Btn::Left => 272,
            Btn::Right => 273,
            Btn::Middle => 274,
            Btn::Side => 275,
            Btn::Extra => 276,
            Btn::Forward => 277,
            Btn::Back => 278,
            Btn::Task => 279,
            Btn::Trigger => 288,
            Btn::Thumb => 289,
            Btn::Thumb2 => 290,
            Btn::Top => 291,
            Btn::Top2 => 292,
            Btn::Pinkie => 293,
            Btn::South => 304,
            Btn::East => 305,
            Btn::C => 306,
            Btn::North => 307,
            Btn::West => 308,
            Btn::Z => 309,
            Btn::Tl => 310,
            Btn::Tr => 311,
            Btn::Tl2 => 312,
            Btn::Tr2 => 313,
            Btn::Select => 314,
            Btn::Start => 315,
            Btn::Mode => 316,
            Btn::ThumbL => 317,
            Btn::ThumbR => 318,
            Btn::DpadUp => 544,
            Btn::DpadDown => 545,
            Btn::DpadLeft => 546,
            Btn::DpadRight => 547,
        }
    }

    /// The variant whose kernel code is `c`, if any.
    pub open spec fn from_code_spec(c: u16) -> Result<Btn, ()> {
        match c {
            256 => Ok(Btn::Btn0),
            257 => Ok(Btn::Btn1),
            258 => Ok(Btn::Btn2),
            259 => Ok(Btn::Btn3),
            260 => Ok(Btn::Btn4),
            261 => Ok(Btn::Btn5),
            262 => Ok(Btn::Btn6),
            263 => Ok(Btn::Btn7),
            264 => Ok(Btn::Btn8),
            265 => Ok(Btn::Btn9),
            272 => Ok(Btn::Left),
            273 => Ok(Btn::Right),
            274 => Ok(Btn::Middle),
            275 => Ok(Btn::Side),
            276 => Ok(Btn::Extra),
            277 => Ok(Btn::Forward),
            278 => Ok(Btn::Back),
            279 => Ok(Btn::Task),
            288 => Ok(Btn::Trigger),
            289 => Ok(Btn::Thumb),
            290 => Ok(Btn::Thumb2),
            291 => Ok(Btn::Top),
            292 => Ok(Btn::Top2),
            293 => Ok(Btn::Pinkie),
            304 => Ok(Btn::South),
            305 => Ok(Btn::East),
            306 => Ok(Btn::C),
            307 => Ok(Btn::North),
            308 => Ok(Btn::West),
            309 => Ok(Btn::Z),
            310 => Ok(Btn::Tl),
            311 => Ok(Btn::Tr),
            312 => Ok(Btn::Tl2),
            313 => Ok(Btn::Tr2),
            314 => Ok(Btn::Select),
            315 => Ok(Btn::Start),
            316 => Ok(Btn::Mode),
            317 => Ok(Btn::ThumbL),
            318 => Ok(Btn::ThumbR),
            544 => Ok(Btn::DpadUp),
            545 => Ok(Btn::DpadDown),
            546 => Ok(Btn::DpadLeft),
            547 => Ok(Btn::DpadRight),
            _ => Err(()),
        }
    }

    /// The variant whose name is `s`, if any.
    pub open spec fn from_slug_spec(s: Seq<char>) -> Result<Btn, ()> {
        if exists|k: Btn| k.slug() == s {
            Ok(choose|k: Btn| k.slug() == s)
        } else {
            Err(())
        }
    }

    /// Names the only variant that `s` can be the name of, judging by its length and by
    /// the characters that tell the names of equal length apart.
    pub open spec fn guess_from_slug(s: Seq<char>) -> Btn {
        if s.len() == 1 {
            if s[0] == '0' {
                Btn::Btn0
            } else if s[0] == '1' {
                Btn::Btn1
            } else if s[0] == '2' {
                Btn::Btn2
            } else if s[0] == '3' {
                Btn::Btn3
            } else if s[0] == '4' {
                Btn::Btn4
            } else if s[0] == '5' {
                Btn::Btn5
            } else if s[0] == '6' {
                Btn::Btn6
            } else if s[0] == '7' {
                Btn::Btn7
            } else if s[0] == '8' {
                Btn::Btn8
            } else if s[0] == '9' {
                Btn::Btn9
            } else if s[0] == 'c' {
                Btn::C
            } else {
                Btn::Z
            }
        } else if s.len() == 2 {
            if s[1] == 'l' {
                Btn::Tl
            } else {
                Btn::Tr
            }
        } else if s.len() == 3 {
            if s[1] == 'o' {
                Btn::Top
            } else if s[1] == 'l' {
                Btn::Tl2
            } else {
                Btn::Tr2
            }
        } else if s.len() == 4 {
            if s[0] == 'l' {
                Btn::Left
            } else if s[0] == 's' {
                Btn::Side
            } else if s[0] == 'b' {
                Btn::Back
            } else if s[0] == 't' {
                if s[1] == 'a' {
                    Btn::Task
                } else {
                    Btn::Top2
                }
            } else if s[0] == 'e' {
                Btn::East
            } else if s[0] == 'w' {
                Btn::West
            } else {
                Btn::Mode
            }
        } else if s.len() == 5 {
            if s[0] == 'r' {
                Btn::Right
            } else if s[0] == 'e' {
                Btn::Extra
            } else if s[0] == 't' {
                Btn::Thumb
            } else if s[0] == 's' {
                if s[1] == 'o' {
                    Btn::South
                } else {
                    Btn::Start
                }
            } else {
                Btn::North
            }
        } else if s.len() == 6 {
            if s[0] == 'm' {
                Btn::Middle
            } else if s[0] == 't' {
                if s[5] == '2' {
                    Btn::Thumb2
                } else if s[5] == 'l' {
                    Btn::ThumbL
                } else {
                    Btn::ThumbR
                }
            } else if s[0] == 'p' {
                Btn::Pinkie
            } else {
                Btn::Select
            }
        } else if s.len() == 7 {
            if s[0] == 'f' {
                Btn::Forward
            } else if s[0] == 't' {
                Btn::Trigger
            } else {
                Btn::DpadUp
            }
        } else if s.len() == 9 {
            if s[5] == 'd' {
                Btn::DpadDown
            } else {
                Btn::DpadLeft
            }
        } else {
            Btn::DpadRight
        }
    }

    pub fn as_str(&self) -> (r: &'static str)
        ensures
            r@ == self.slug(),
    {
        match self {
            Btn::Btn0 => "0",
            Btn::Btn1 => "1",
            Btn::Btn2 => "2",
            Btn::Btn3 => "3",
            Btn::Btn4 => "4",
            Btn::Btn5 => "5",
            Btn::Btn6 => "6",
            Btn::Btn7 => "7",
            Btn::Btn8 => "8",
            Btn::Btn9 => "9",
            Btn::Left => "left",
            Btn::Right => "right",
            Btn::Middle => "middle",
            Btn::Side => "side",
            Btn::Extra => "extra",
            Btn::Forward => "forward",
            Btn::Back => "back",
            Btn::Task => "task",
            Btn::Trigger => "trigger",
            Btn::Thumb => "thumb",
            Btn::Thumb2 => "thumb2",
            Btn::Top => "top",
            Btn::Top2 => "top2",
            Btn::Pinkie => "pinkie",
            Btn::South => "south",
            Btn::East => "east",
            Btn::C => "c",
            Btn::North => "north",
            Btn::West => "west",
            Btn::Z => "z",
            Btn::Tl => "tl",
            Btn::Tr => "tr",
            Btn::Tl2 => "tl2",
            Btn::Tr2 => "tr2",
            Btn::Select => "select",
            Btn::Start => "start",
            Btn::Mode => "mode",
            Btn::ThumbL => "thumbl",
            Btn::ThumbR => "thumbr",
            Btn::DpadUp => "dpad_up",
            Btn::DpadDown => "dpad_down",
            Btn::DpadLeft => "dpad_left",
            Btn::DpadRight => "dpad_right",
        }
    }

    pub fn code(&self) -> (r: u16)
        ensures
            r == self.code_spec(),
    {
        match self {
            Btn::Btn0 => 256,
            Btn::Btn1 => 257,
            Btn::Btn2 => 258,
            Btn::Btn3 => 259,
            Btn::Btn4 => 260,
            Btn::Btn5 => 261,
            Btn::Btn6 => 262,
            Btn::Btn7 => 263,
            Btn::Btn8 => 264,
            Btn::Btn9 => 265,
            Btn::Left => 272,
            Btn::Right => 273,
            Btn::Middle => 274,
            Btn::Side => 275,
            Btn::Extra => 276,
            Btn::Forward => 277,
            Btn::Back => 278,
            Btn::Task => 279,
            Btn::Trigger => 288,
            Btn::Thumb => 289,
            Btn::Thumb2 => 290,
            Btn::Top => 291,
            Btn::Top2 => 292,
            Btn::Pinkie => 293,
            Btn::South => 304,
            Btn::East => 305,
            Btn::C => 306,
            Btn::North => 307,
            Btn::West => 308,
            Btn::Z => 309,
            Btn::Tl => 310,
            Btn::Tr => 311,
            Btn::Tl2 => 312,
            Btn::Tr2 => 313,
            Btn::Select => 314,
            Btn::Start => 315,
            Btn::Mode => 316,
            Btn::ThumbL => 317,
            Btn::ThumbR => 318,
            Btn::DpadUp => 544,
            Btn::DpadDown => 545,
            Btn::DpadLeft => 546,
            Btn::DpadRight => 547,
        }
    }

    pub fn try_from_code(c: u16) -> (r: Result<Btn, ()>)
        ensures
            r == Btn::from_code_spec(c),
    {
        match c {
            256 => Ok(Btn::Btn0),
            257 => Ok(Btn::Btn1),
            258 => Ok(Btn::Btn2),
            259 => Ok(Btn::Btn3),
            260 => Ok(Btn::Btn4),
            261 => Ok(Btn::Btn5),
            262 => Ok(Btn::Btn6),
            263 => Ok(Btn::Btn7),
            264 => Ok(Btn::Btn8),
            265 => Ok(Btn::Btn9),
            272 => Ok(Btn::Left),
            273 => Ok(Btn::Right),
            274 => Ok(Btn::Middle),
            275 => Ok(Btn::Side),
            276 => Ok(Btn::Extra),
            277 => Ok(Btn::Forward),
            278 => Ok(Btn::Back),
            279 => Ok(Btn::Task),
            288 => Ok(Btn::Trigger),
            289 => Ok(Btn::Thumb),
            290 => Ok(Btn::Thumb2),
            291 => Ok(Btn::Top),
            292 => Ok(Btn::Top2),
            293 => Ok(Btn::Pinkie),
            304 => Ok(Btn::South),
            305 => Ok(Btn::East),
            306 => Ok(Btn::C),
            307 => Ok(Btn::North),
            308 => Ok(Btn::West),
            309 => Ok(Btn::Z),
            310 => Ok(Btn::Tl),
            311 => Ok(Btn::Tr),
            312 => Ok(Btn::Tl2),
            313 => Ok(Btn::Tr2),
            314 => Ok(Btn::Select),
            315 => Ok(Btn::Start),
            316 => Ok(Btn::Mode),
            317 => Ok(Btn::ThumbL),
            318 => Ok(Btn::ThumbR),
            544 => Ok(Btn::DpadUp),
            545 => Ok(Btn::DpadDown),
            546 => Ok(Btn::DpadLeft),
            547 => Ok(Btn::DpadRight),
            _ => Err(()),
        }
    }

    pub fn from_slug(s: &str) -> (r: Result<Btn, ()>)
        ensures
            r == Btn::from_slug_spec(s@),
    {
        if str_eq(s, "0") {
            proof {
                assert(Btn::Btn0.slug() == s@);
                lemma_slug_injective(Btn::Btn0, choose|k: Btn| k.slug() == s@);
            }
            return Ok(Btn::Btn0);
        }
        if str_eq(s, "1") {
            proof {
                assert(Btn::Btn1.slug() == s@);
                lemma_slug_injective(Btn::Btn1, choose|k: Btn| k.slug() == s@);
            }
            return Ok(Btn::Btn1);
        }
        if str_eq(s, "2") {
            proof {
                assert(Btn::Btn2.slug() == s@);
                lemma_slug_injective(Btn::Btn2, choose|k: Btn| k.slug() == s@);
            }
            return Ok(Btn::Btn2);
        }
        if str_eq(s, "3") {
            proof {
                assert(Btn::Btn3.slug() == s@);
                lemma_slug_injective(Btn::Btn3, choose|k: Btn| k.slug() == s@);
            }
            return Ok(Btn::Btn3);
        }
        if str_eq(s, "4") {
            proof {
                assert(Btn::Btn4.slug() == s@);
                lemma_slug_injective(Btn::Btn4, choose|k: Btn| k.slug() == s@);
            }
            return Ok(Btn::Btn4);
        }
        if str_eq(s, "5") {
            proof {
                assert(Btn::Btn5.slug() == s@);
                lemma_slug_injective(Btn::Btn5, choose|k: Btn| k.slug() == s@);
            }
            return Ok(Btn::Btn5);
        }
        if str_eq(s, "6") {
            proof {
                assert(Btn::Btn6.slug() == s@);
                lemma_slug_injective(Btn::Btn6, choose|k: Btn| k.slug() == s@);
            }
            return Ok(Btn::Btn6);
        }
        if str_eq(s, "7") {
            proof {
                assert(Btn::Btn7.slug() == s@);
                lemma_slug_injective(Btn::Btn7, choose|k: Btn| k.slug() == s@);
            }
            return Ok(Btn::Btn7);
        }
        if str_eq(s, "8") {
            proof {
                assert(Btn::Btn8.slug() == s@);
                lemma_slug_injective(Btn::Btn8, choose|k: Btn| k.slug() == s@);
            }
            return Ok(Btn::Btn8);
        }
        if str_eq(s, "9") {
            proof {
                assert(Btn::Btn9.slug() == s@);
                lemma_slug_injective(Btn::Btn9, choose|k: Btn| k.slug() == s@);
            }
            return Ok(Btn::Btn9);
        }
        if str_eq(s, "left") {
            proof {
                assert(Btn::Left.slug() == s@);
                lemma_slug_injective(Btn::Left, choose|k: Btn| k.slug() == s@);
            }
            return Ok(Btn::Left);
        }
        if str_eq(s, "right") {
            proof {
                assert(Btn::Right.slug() == s@);
                lemma_slug_injective(Btn::Right, choose|k: Btn| k.slug() == s@);
            }
            return Ok(Btn::Right);
        }
        if str_eq(s, "middle") {
            proof {
                assert(Btn::Middle.slug() == s@);
                lemma_slug_injective(Btn::Middle, choose|k: Btn| k.slug() == s@);
            }
            return Ok(Btn::Middle);
        }
        if str_eq(s, "side") {
            proof {
                assert(Btn::Side.slug() == s@);
                lemma_slug_injective(Btn::Side, choose|k: Btn| k.slug() == s@);
            }
            return Ok(Btn::Side);
        }
        if str_eq(s, "extra") {
            proof {
                assert(Btn::Extra.slug() == s@);
                lemma_slug_injective(Btn::Extra, choose|k: Btn| k.slug() == s@);
            }
            return Ok(Btn::Extra);
        }
        if str_eq(s, "forward") {
            proof {
                assert(Btn::Forward.slug() == s@);
                lemma_slug_injective(Btn::Forward, choose|k: Btn| k.slug() == s@);
            }
            return Ok(Btn::Forward);
        }
        if str_eq(s, "back") {
            proof {
                assert(Btn::Back.slug() == s@);
                lemma_slug_injective(Btn::Back, choose|k: Btn| k.slug() == s@);
            }
            return Ok(Btn::Back);
        }
        if str_eq(s, "task") {
            proof {
                assert(Btn::Task.slug() == s@);
                lemma_slug_injective(Btn::Task, choose|k: Btn| k.slug() == s@);
            }
            return Ok(Btn::Task);
        }
        if str_eq(s, "trigger") {
            proof {
                assert(Btn::Trigger.slug() == s@);
                lemma_slug_injective(Btn::Trigger, choose|k: Btn| k.slug() == s@);
            }
            return Ok(Btn::Trigger);
        }
        if str_eq(s, "thumb") {
            proof {
                assert(Btn::Thumb.slug() == s@);
                lemma_slug_injective(Btn::Thumb, choose|k: Btn| k.slug() == s@);
            }
            return Ok(Btn::Thumb);
        }
        if str_eq(s, "thumb2") {
            proof {
                assert(Btn::Thumb2.slug() == s@);
                lemma_slug_injective(Btn::Thumb2, choose|k: Btn| k.slug() == s@);
            }
            return Ok(Btn::Thumb2);
        }
        if str_eq(s, "top") {
            proof {
                assert(Btn::Top.slug() == s@);
                lemma_slug_injective(Btn::Top, choose|k: Btn| k.slug() == s@);
            }
            return Ok(Btn::Top);
        }
        if str_eq(s, "top2") {
            proof {
                assert(Btn::Top2.slug() == s@);
                lemma_slug_injective(Btn::Top2, choose|k: Btn| k.slug() == s@);
            }
            return Ok(Btn::Top2);
        }
        if str_eq(s, "pinkie") {
            proof {
                assert(Btn::Pinkie.slug() == s@);
                lemma_slug_injective(Btn::Pinkie, choose|k: Btn| k.slug() == s@);
            }
            return Ok(Btn::Pinkie);
        }
        if str_eq(s, "south") {
            proof {
                assert(Btn::South.slug() == s@);
                lemma_slug_injective(Btn::South, choose|k: Btn| k.slug() == s@);
            }
            return Ok(Btn::South);
        }
        if str_eq(s, "east") {
            proof {
                assert(Btn::East.slug() == s@);
                lemma_slug_injective(Btn::East, choose|k: Btn| k.slug() == s@);
            }
            return Ok(Btn::East);
        }
        if str_eq(s, "c") {
            proof {
                assert(Btn::C.slug() == s@);
                lemma_slug_injective(Btn::C, choose|k: Btn| k.slug() == s@);
            }
            return Ok(Btn::C);
        }
        if str_eq(s, "north") {
            proof {
                assert(Btn::North.slug() == s@);
                lemma_slug_injective(Btn::North, choose|k: Btn| k.slug() == s@);
            }
            return Ok(Btn::North);
        }
        if str_eq(s, "west") {
            proof {
                assert(Btn::West.slug() == s@);
                lemma_slug_injective(Btn::West, choose|k: Btn| k.slug() == s@);
            }
            return Ok(Btn::West);
        }
        if str_eq(s, "z") {
            proof {
                assert(Btn::Z.slug() == s@);
                lemma_slug_injective(Btn::Z, choose|k: Btn| k.slug() == s@);
            }
            return Ok(Btn::Z);
        }
        if str_eq(s, "tl") {
            proof {
                assert(Btn::Tl.slug() == s@);
                lemma_slug_injective(Btn::Tl, choose|k: Btn| k.slug() == s@);
            }
            return Ok(Btn::Tl);
        }
        if str_eq(s, "tr") {
            proof {
                assert(Btn::Tr.slug() == s@);
                lemma_slug_injective(Btn::Tr, choose|k: Btn| k.slug() == s@);
            }
            return Ok(Btn::Tr);
        }
        if str_eq(s, "tl2") {
            proof {
                assert(Btn::Tl2.slug() == s@);
                lemma_slug_injective(Btn::Tl2, choose|k: Btn| k.slug() == s@);
            }
            return Ok(Btn::Tl2);
        }
        if str_eq(s, "tr2") {
            proof {
                assert(Btn::Tr2.slug() == s@);
                lemma_slug_injective(Btn::Tr2, choose|k: Btn| k.slug() == s@);
            }
            return Ok(Btn::Tr2);
        }
        if str_eq(s, "select") {
            proof {
                assert(Btn::Select.slug() == s@);
                lemma_slug_injective(Btn::Select, choose|k: Btn| k.slug() == s@);
            }
            return Ok(Btn::Select);
        }
        if str_eq(s, "start") {
            proof {
                assert(Btn::Start.slug() == s@);
                lemma_slug_injective(Btn::Start, choose|k: Btn| k.slug() == s@);
            }
            return Ok(Btn::Start);
        }
        if str_eq(s, "mode") {
            proof {
                assert(Btn::Mode.slug() == s@);
                lemma_slug_injective(Btn::Mode, choose|k: Btn| k.slug() == s@);
            }
            return Ok(Btn::Mode);
        }
        if str_eq(s, "thumbl") {
            proof {
                assert(Btn::ThumbL.slug() == s@);
                lemma_slug_injective(Btn::ThumbL, choose|k: Btn| k.slug() == s@);
            }
            return Ok(Btn::ThumbL);
        }
        if str_eq(s, "thumbr") {
            proof {
                assert(Btn::ThumbR.slug() == s@);
                lemma_slug_injective(Btn::ThumbR, choose|k: Btn| k.slug() == s@);
            }
            return Ok(Btn::ThumbR);
        }
        if str_eq(s, "dpad_up") {
            proof {
                assert(Btn::DpadUp.slug() == s@);
                lemma_slug_injective(Btn::DpadUp, choose|k: Btn| k.slug() == s@);
            }
            return Ok(Btn::DpadUp);
        }
        if str_eq(s, "dpad_down") {
            proof {
                assert(Btn::DpadDown.slug() == s@);
                lemma_slug_injective(Btn::DpadDown, choose|k: Btn| k.slug() == s@);
            }
            return Ok(Btn::DpadDown);
        }
        if str_eq(s, "dpad_left") {
            proof {
                assert(Btn::DpadLeft.slug() == s@);
                lemma_slug_injective(Btn::DpadLeft, choose|k: Btn| k.slug() == s@);
            }
            return Ok(Btn::DpadLeft);
        }
        if str_eq(s, "dpad_right") {
            proof {
                assert(Btn::DpadRight.slug() == s@);
                lemma_slug_injective(Btn::DpadRight, choose|k: Btn| k.slug() == s@);
            }
            return Ok(Btn::DpadRight);
        }
        assert forall|k: Btn| k.slug() != s@ by {}
        Err(())
    }
}

impl std::str::FromStr for Btn {
    type Err = ();

    fn from_str(s: &str) -> Result<Btn, ()> {
        Btn::from_slug(s)
    }
}

proof fn lemma_guess_from_slug(k: Btn)
    ensures
        Btn::guess_from_slug(k.slug()) == k,
{
    match k {
        Btn::Btn0 => reveal_strlit("0"),
        Btn::Btn1 => reveal_strlit("1"),
        Btn::Btn2 => reveal_strlit("2"),
        Btn::Btn3 => reveal_strlit("3"),
        Btn::Btn4 => reveal_strlit("4"),
        Btn::Btn5 => reveal_strlit("5"),
        Btn::Btn6 => reveal_strlit("6"),
        Btn::Btn7 => reveal_strlit("7"),
        Btn::Btn8 => reveal_strlit("8"),
        Btn::Btn9 => reveal_strlit("9"),
        Btn::Left => reveal_strlit("left"),
        Btn::Right => reveal_strlit("right"),
        Btn::Middle => reveal_strlit("middle"),
        Btn::Side => reveal_strlit("side"),
        Btn::Extra => reveal_strlit("extra"),
        Btn::Forward => reveal_strlit("forward"),
        Btn::Back => reveal_strlit("back"),
        Btn::Task => reveal_strlit("task"),
        Btn::Trigger => reveal_strlit("trigger"),
        Btn::Thumb => reveal_strlit("thumb"),
        Btn::Thumb2 => reveal_strlit("thumb2"),
        Btn::Top => reveal_strlit("top"),
        Btn::Top2 => reveal_strlit("top2"),
        Btn::Pinkie => reveal_strlit("pinkie"),
        Btn::South => reveal_strlit("south"),
        Btn::East => reveal_strlit("east"),
        Btn::C => reveal_strlit("c"),
        Btn::North => reveal_strlit("north"),
        Btn::West => reveal_strlit("west"),
        Btn::Z => reveal_strlit("z"),
        Btn::Tl => reveal_strlit("tl"),
        Btn::Tr => reveal_strlit("tr"),
        Btn::Tl2 => reveal_strlit("tl2"),
        Btn::Tr2 => reveal_strlit("tr2"),
        Btn::Select => reveal_strlit("select"),
        Btn::Start => reveal_strlit("start"),
        Btn::Mode => reveal_strlit("mode"),
        Btn::ThumbL => reveal_strlit("thumbl"),
        Btn::ThumbR => reveal_strlit("thumbr"),
        Btn::DpadUp => reveal_strlit("dpad_up"),
        Btn::DpadDown => reveal_strlit("dpad_down"),
        Btn::DpadLeft => reveal_strlit("dpad_left"),
        Btn::DpadRight => reveal_strlit("dpad_right"),
    }
}

/// No two variants share a name.
pub proof fn lemma_slug_injective(a: Btn, b: Btn)
    requires
        a.slug() == b.slug(),
    ensures
        a == b,
{
    lemma_guess_from_slug(a);
    lemma_guess_from_slug(b);
}

/// Reading the name of a variant gives that variant back, and whatever reads as a variant
/// is exactly that variant's name.
pub proof fn lemma_slug_round_trip(k: Btn, s: Seq<char>)
    ensures
        Btn::from_slug_spec(k.slug()) == Ok::<Btn, ()>(k),
        Btn::from_slug_spec(s) matches Ok(j) ==> j.slug() == s,
{
    lemma_slug_injective(k, choose|j: Btn| j.slug() == k.slug());
}

/// Decoding the kernel code of a variant gives that variant back, and whatever decodes
/// to a variant is exactly that variant's code.
pub proof fn lemma_code_round_trip(k: Btn, c: u16)
    ensures
        Btn::from_code_spec(k.code_spec()) == Ok::<Btn, ()>(k),
        Btn::from_code_spec(c) matches Ok(j) ==> j.code_spec() == c,
{
}

} // verus!
