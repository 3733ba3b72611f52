use vstd::prelude::*;

use crate::text::str_eq;

verus! {

/// Absolute axes, each backed by the kernel's numeric absolute axis code.
#[derive(Debug, Copy, Clone, PartialEq, Eq, Structural)]
pub enum AbsAxis {
    X,
    Y,
    Z,
    RX,
    RY,
    RZ,
    Throttle,
    Rudder,
    Wheel,
    Gas,
    Brake,
    Hat0X,
    Hat0Y,
    Hat1X,
    Hat1Y,
    Hat2X,
    Hat2Y,
    Hat3X,
    Hat3Y,
    Pressure,
    Distance,
    TiltX,
    TiltY,
    ToolWidth,
    Volume,
    MtSlot,
    MtTouchMajor,
    MtTouchMinor,
    MtWidthMajor,
    MtWidthMinor,
    MtOrientation,
    MtPositionX,
    MtPositionY,
    MtToolType,
    MtBlobId,
    MtTrackingId,
    MtPressure,
    MtDistance,
    MtToolX,
    MtToolY,
}

impl AbsAxis {
    /// The canonical lowercase name of the variant.
    pub open spec fn slug(self) -> Seq<char> {
        match self {
            AbsAxis::X => "x"@,
            AbsAxis::Y => "y"@,
            AbsAxis::Z => "z"@,
            AbsAxis::RX => "rx"@,
            AbsAxis::RY => "ry"@,
            AbsAxis::RZ => "rz"@,
            AbsAxis::Throttle => "throttle"@,
            AbsAxis::Rudder => "rudder"@,
            AbsAxis::Wheel => "wheel"@,
            AbsAxis::Gas => "gas"@,
            AbsAxis::Brake => "brake"@,
            AbsAxis::Hat0X => "hat0x"@,
            AbsAxis::Hat0Y => "hat0y"@,
            AbsAxis::Hat1X => "hat1x"@,
            AbsAxis::Hat1Y => "hat1y"@,
            AbsAxis::Hat2X => "hat2x"@,
            AbsAxis::Hat2Y => "hat2y"@,
            AbsAxis::Hat3X => "hat3x"@,
            AbsAxis::Hat3Y => "hat3y"@,
            AbsAxis::Pressure => "pressure"@,
            AbsAxis::Distance => "distance"@,
            AbsAxis::TiltX => "tilt_x"@,
            AbsAxis::TiltY => "tilt_y"@,
            AbsAxis::ToolWidth => "tool_width"@,
            AbsAxis::Volume => "volume"@,
            AbsAxis::MtSlot => "mt_slot"@,
            AbsAxis::MtTouchMajor => "mt_touch_major"@,
            AbsAxis::MtTouchMinor => "mt_touch_minor"@,
            AbsAxis::MtWidthMajor => "mt_width_major"@,
            AbsAxis::MtWidthMinor => "mt_width_minor"@,
            AbsAxis::MtOrientation => "mt_orientation"@,
            AbsAxis::MtPositionX => "mt_position_x"@,
            AbsAxis::MtPositionY => "mt_position_y"@,
            AbsAxis::MtToolType => "mt_tool_type"@,
            AbsAxis::MtBlobId => "mt_blob_id"@,
            AbsAxis::MtTrackingId => "mt_tracking_id"@,
            AbsAxis::MtPressure => "mt_pressure"@,
            AbsAxis::MtDistance => "mt_distance"@,
            AbsAxis::MtToolX => "mt_tool_x"@,
            AbsAxis::MtToolY => "mt_tool_y"@,
        }
    }

    /// The kernel's absolute axis code of the variant.
    pub open spec fn code_spec(self) -> u16 {
        match self {
            AbsAxis::X => 0,
            AbsAxis::Y => 1,
            AbsAxis::Z => 2,
            AbsAxis::RX => 3,
            AbsAxis::RY => 4,
            AbsAxis::RZ => 5,
            AbsAxis::Throttle => 6,
            AbsAxis::Rudder => 7,
            AbsAxis::Wheel => 8,
            AbsAxis::Gas => 9,
            AbsAxis::Brake => 10,
            AbsAxis::Hat0X => 16,
            AbsAxis::Hat0Y => 17,
            AbsAxis::Hat1X => 18,
            AbsAxis::Hat1Y => 19,
            AbsAxis::Hat2X => 20,
            AbsAxis::Hat2Y => 21,
            AbsAxis::Hat3X => 22,
            AbsAxis::Hat3Y => 23,
            AbsAxis::Pressure => 24,
            AbsAxis::Distance => 25,
            AbsAxis::TiltX => 26,
            AbsAxis::TiltY => 27,
            AbsAxis::ToolWidth => 28,
            AbsAxis::Volume => 32,
            AbsAxis::MtSlot => 47,
            AbsAxis::MtTouchMajor => 48,
            AbsAxis::MtTouchMinor => 49,
            AbsAxis::MtWidthMajor => 50,
            AbsAxis::MtWidthMinor => 51,
            AbsAxis::MtOrientation => 52,
            AbsAxis::MtPositionX => 53,
            AbsAxis::MtPositionY => 54,
            AbsAxis::MtToolType => 55,
            AbsAxis::MtBlobId => 56,
            AbsAxis::MtTrackingId => 57,
            AbsAxis::MtPressure => 58,
            AbsAxis::MtDistance => 59,
            AbsAxis::MtToolX => 60,
            AbsAxis::MtToolY => 61,
        }
    }

    /// The variant whose kernel code is `c`, if any.
    pub open spec fn from_code_spec(c: u16) -> Result<AbsAxis, ()> {
        match c {
            0 => Ok(AbsAxis::X),
            1 => Ok(AbsAxis::Y),
            2 => Ok(AbsAxis::Z),
            3 => Ok(AbsAxis::RX),
            4 => Ok(AbsAxis::RY),
            5 => Ok(AbsAxis::RZ),
            6 => Ok(AbsAxis::Throttle),
            7 => Ok(AbsAxis::Rudder),
            8 => Ok(AbsAxis::Wheel),
            9 => Ok(AbsAxis::Gas),
            10 => Ok(AbsAxis::Brake),
            16 => Ok(AbsAxis::Hat0X),
            17 => Ok(AbsAxis::Hat0Y),
            18 => Ok(AbsAxis::Hat1X),
            19 => Ok(AbsAxis::Hat1Y),
            20 => Ok(AbsAxis::Hat2X),
            21 => Ok(AbsAxis::Hat2Y),
            22 => Ok(AbsAxis::Hat3X),
            23 => Ok(AbsAxis::Hat3Y),
            24 => Ok(AbsAxis::Pressure),
            25 => Ok(AbsAxis::Distance),
            26 => Ok(AbsAxis::TiltX),
            27 => Ok(AbsAxis::TiltY),
            28 => Ok(AbsAxis::ToolWidth),
            32 => Ok(AbsAxis::Volume),
            47 => Ok(AbsAxis::MtSlot),
            48 => Ok(AbsAxis::MtTouchMajor),
            49 => Ok(AbsAxis::MtTouchMinor),
            50 => Ok(AbsAxis::MtWidthMajor),
            51 => Ok(AbsAxis::MtWidthMinor),
            52 => Ok(AbsAxis::MtOrientation),
            53 => Ok(AbsAxis::MtPositionX),
            54 => Ok(AbsAxis::MtPositionY),
            55 => Ok(AbsAxis::MtToolType),
            56 => Ok(AbsAxis::MtBlobId),
            57 => Ok(AbsAxis::MtTrackingId),
            58 => Ok(AbsAxis::MtPressure),
            59 => Ok(AbsAxis::MtDistance),
            60 => Ok(AbsAxis::MtToolX),
            61 => Ok(AbsAxis::MtToolY),
            _ => Err(()),
        }
    }

    /// The variant whose name is `s`, if any.
    pub open spec fn from_slug_spec(s: Seq<char>) -> Result<AbsAxis, ()> {
        if exists|k: AbsAxis| k.slug() == s {
            Ok(choose|k: AbsAxis| k.slug() == s)
        } else {
            Err(())
        }
    }

    /// Names the only variant that `s` can be the name of, judging by its length and by
    /// the characters that tell the names of equal length apart.
    pub open spec fn guess_from_slug(s: Seq<char>) -> AbsAxis {
        if s.len() == 1 {
            if s[0] == 'x' {
                AbsAxis::X
            } else if s[0] == 'y' {
                AbsAxis::Y
            } else {
                AbsAxis::Z
            }
        } else if s.len() == 2 {
            if s[1] == 'x' {
                AbsAxis::RX
            } else if s[1] == 'y' {
                AbsAxis::RY
            } else {
                AbsAxis::RZ
            }
        } else if s.len() == 3 {
            AbsAxis::Gas
        } else if s.len() == 5 {
            if s[0] == 'w' {
                AbsAxis::Wheel
            } else if s[0] == 'b' {
                AbsAxis::Brake
            } else {
                if s[3] == '0' {
                    if s[4] == 'x' {
                        AbsAxis::Hat0X
                    } else {
                        AbsAxis::Hat0Y
                    }
                } else if s[3] == '1' {
                    if s[4] == 'x' {
                        AbsAxis::Hat1X
                    } else {
                        AbsAxis::Hat1Y
                    }
                } else if s[3] == '2' {
                    if s[4] == 'x' {
                        AbsAxis::Hat2X
                    } else {
                        AbsAxis::Hat2Y
                    }
                } else {
                    if s[4] == 'x' {
                        AbsAxis::Hat3X
                    } else {
                        AbsAxis::Hat3Y
                    }
                }
            }
        } else if s.len() == 6 {
            if s[0] == 'r' {
                AbsAxis::Rudder
            } else if s[0] == 't' {
                if s[5] == 'x' {
                    AbsAxis::TiltX
                } else {
                    AbsAxis::TiltY
                }
            } else {
                AbsAxis::Volume
            }
        } else if s.len() == 7 {
            AbsAxis::MtSlot
        } else if s.len() == 8 {
            if s[0] == 't' {
                AbsAxis::Throttle
            } else if s[0] == 'p' {
                AbsAxis::Pressure
            } else {
                AbsAxis::Distance
            }
        } else if s.len() == 9 {
            if s[8] == 'x' {
                AbsAxis::MtToolX
            } else {
                AbsAxis::MtToolY
            }
        } else if s.len() == 10 {
            if s[0] == 't' {
                AbsAxis::ToolWidth
            } else {
                AbsAxis::MtBlobId
            }
        } else if s.len() == 11 {
            if s[3] == 'p' {
                AbsAxis::MtPressure
            } else {
                AbsAxis::MtDistance
            }
        } else if s.len() == 12 {
            AbsAxis::MtToolType
        } else if s.len() == 13 {
            if s[12] == 'x' {
                AbsAxis::MtPositionX
            } else {
                AbsAxis::MtPositionY
            }
        } else {
            if s[3] == 't' {
                if s[4] == 'o' {
                    if s[10] == 'a' {
                        AbsAxis::MtTouchMajor
                    } else {
                        AbsAxis::MtTouchMinor
                    }
                } else {
                    AbsAxis::MtTrackingId
                }
            } else if s[3] == 'w' {
                if s[10] == 'a' {
                    AbsAxis::MtWidthMajor
                } else {
                    AbsAxis::MtWidthMinor
                }
            } else {
                AbsAxis::MtOrientation
            }
        }
    }

    pub fn as_str(&self) -> (r: &'static str)
        ensures
            r@ == self.slug(),
    {
        match self {
            AbsAxis::X => "x",
            AbsAxis::Y => "y",
            AbsAxis::Z => "z",
            AbsAxis::RX => "rx",
            AbsAxis::RY => "ry",
            AbsAxis::RZ => "rz",
            AbsAxis::Throttle => "throttle",
            AbsAxis::Rudder => "rudder",
            AbsAxis::Wheel => "wheel",
            AbsAxis::Gas => "gas",
            AbsAxis::Brake => "brake",
            AbsAxis::Hat0X => "hat0x",
            AbsAxis::Hat0Y => "hat0y",
            AbsAxis::Hat1X => "hat1x",
            AbsAxis::Hat1Y => "hat1y",
            AbsAxis::Hat2X => "hat2x",
            AbsAxis::Hat2Y => "hat2y",
            AbsAxis::Hat3X => "hat3x",
            AbsAxis::Hat3Y => "hat3y",
            AbsAxis::Pressure => "pressure",
            AbsAxis::Distance => "distance",
            AbsAxis::TiltX => "tilt_x",
            AbsAxis::TiltY => "tilt_y",
            AbsAxis::ToolWidth => "tool_width",
            AbsAxis::Volume => "volume",
            AbsAxis::MtSlot => "mt_slot",
            AbsAxis::MtTouchMajor => "mt_touch_major",
            AbsAxis::MtTouchMinor => "mt_touch_minor",
            AbsAxis::MtWidthMajor => "mt_width_major",
            AbsAxis::MtWidthMinor => "mt_width_minor",
            AbsAxis::MtOrientation => "mt_orientation",
            AbsAxis::MtPositionX => "mt_position_x",
            AbsAxis::MtPositionY => "mt_position_y",
            AbsAxis::MtToolType => "mt_tool_type",
            AbsAxis::MtBlobId => "mt_blob_id",
            AbsAxis::MtTrackingId => "mt_tracking_id",
            AbsAxis::MtPressure => "mt_pressure",
            AbsAxis::MtDistance => "mt_distance",
            AbsAxis::MtToolX => "mt_tool_x",
            AbsAxis::MtToolY => "mt_tool_y",
        }
    }

    pub fn code(&self) -> (r: u16)
        ensures
            r == self.code_spec(),
    {
        match self {
            AbsAxis::X => 0,
            AbsAxis::Y => 1,
            AbsAxis::Z => 2,
            AbsAxis::RX => 3,
            AbsAxis::RY => 4,
            AbsAxis::RZ => 5,
            AbsAxis::Throttle => 6,
            AbsAxis::Rudder => 7,
            AbsAxis::Wheel => 8,
            AbsAxis::Gas => 9,
            AbsAxis::Brake => 10,
            AbsAxis::Hat0X => 16,
            AbsAxis::Hat0Y => 17,
            AbsAxis::Hat1X => 18,
            AbsAxis::Hat1Y => 19,
            AbsAxis::Hat2X => 20,
            AbsAxis::Hat2Y => 21,
            AbsAxis::Hat3X => 22,
            AbsAxis::Hat3Y => 23,
            AbsAxis::Pressure => 24,
            AbsAxis::Distance => 25,
            AbsAxis::TiltX => 26,
            AbsAxis::TiltY => 27,
            AbsAxis::ToolWidth => 28,
            AbsAxis::Volume => 32,
            AbsAxis::MtSlot => 47,
            AbsAxis::MtTouchMajor => 48,
            AbsAxis::MtTouchMinor => 49,
            AbsAxis::MtWidthMajor => 50,
            AbsAxis::MtWidthMinor => 51,
            AbsAxis::MtOrientation => 52,
            AbsAxis::MtPositionX => 53,
            AbsAxis::MtPositionY => 54,
            AbsAxis::MtToolType => 55,
            AbsAxis::MtBlobId => 56,
            AbsAxis::MtTrackingId => 57,
            AbsAxis::MtPressure => 58,
            AbsAxis::MtDistance => 59,
            AbsAxis::MtToolX => 60,
            AbsAxis::MtToolY => 61,
        }
    }

    pub fn try_from_code(c: u16) -> (r: Result<AbsAxis, ()>)
        ensures
            r == AbsAxis::from_code_spec(c),
    {
        match c {
            0 => Ok(AbsAxis::X),
            1 => Ok(AbsAxis::Y),
            2 => Ok(AbsAxis::Z),
            3 => Ok(AbsAxis::RX),
            4 => Ok(AbsAxis::RY),
            5 => Ok(AbsAxis::RZ),
            6 => Ok(AbsAxis::Throttle),
            7 => Ok(AbsAxis::Rudder),
            8 => Ok(AbsAxis::Wheel),
            9 => Ok(AbsAxis::Gas),
            10 => Ok(AbsAxis::Brake),
            16 => Ok(AbsAxis::Hat0X),
            17 => Ok(AbsAxis::Hat0Y),
            18 => Ok(AbsAxis::Hat1X),
            19 => Ok(AbsAxis::Hat1Y),
            20 => Ok(AbsAxis::Hat2X),
            21 => Ok(AbsAxis::Hat2Y),
            22 => Ok(AbsAxis::Hat3X),
            23 => Ok(AbsAxis::Hat3Y),
            24 => Ok(AbsAxis::Pressure),
            25 => Ok(AbsAxis::Distance),
            26 => Ok(AbsAxis::TiltX),
            27 => Ok(AbsAxis::TiltY),
            28 => Ok(AbsAxis::ToolWidth),
            32 => Ok(AbsAxis::Volume),
            47 => Ok(AbsAxis::MtSlot),
            48 => Ok(AbsAxis::MtTouchMajor),
            49 => Ok(AbsAxis::MtTouchMinor),
            50 => Ok(AbsAxis::MtWidthMajor),
            51 => Ok(AbsAxis::MtWidthMinor),
            52 => Ok(AbsAxis::MtOrientation),
            53 => Ok(AbsAxis::MtPositionX),
            54 => Ok(AbsAxis::MtPositionY),
            55 => Ok(AbsAxis::MtToolType),
            56 => Ok(AbsAxis::MtBlobId),
            57 => Ok(AbsAxis::MtTrackingId),
            58 => Ok(AbsAxis::MtPressure),
            59 => Ok(AbsAxis::MtDistance),
            60 => Ok(AbsAxis::MtToolX),
            61 => Ok(AbsAxis::MtToolY),
            _ => Err(()),
        }
    }

    pub fn from_slug(s: &str) -> (r: Result<AbsAxis, ()>)
        ensures
            r == AbsAxis::from_slug_spec(s@),
    {
        if str_eq(s, "x") {
            proof {
                assert(AbsAxis::X.slug() == s@);
                lemma_slug_injective(AbsAxis::X, choose|k: AbsAxis| k.slug() == s@);
            }
            return Ok(AbsAxis::X);
        }
        if str_eq(s, "y") {
            proof {
                assert(AbsAxis::Y.slug() == s@);
                lemma_slug_injective(AbsAxis::Y, choose|k: AbsAxis| k.slug() == s@);
            }
            return Ok(AbsAxis::Y);
        }
        if str_eq(s, "z") {
            proof {
                assert(AbsAxis::Z.slug() == s@);
                lemma_slug_injective(AbsAxis::Z, choose|k: AbsAxis| k.slug() == s@);
            }
            return Ok(AbsAxis::Z);
        }
        if str_eq(s, "rx") {
            proof {
                assert(AbsAxis::RX.slug() == s@);
                lemma_slug_injective(AbsAxis::RX, choose|k: AbsAxis| k.slug() == s@);
            }
            return Ok(AbsAxis::RX);
        }
        if str_eq(s, "ry") {
            proof {
                assert(AbsAxis::RY.slug() == s@);
                lemma_slug_injective(AbsAxis::RY, choose|k: AbsAxis| k.slug() == s@);
            }
            return Ok(AbsAxis::RY);
        }
        if str_eq(s, "rz") {
            proof {
                assert(AbsAxis::RZ.slug() == s@);
                lemma_slug_injective(AbsAxis::RZ, choose|k: AbsAxis| k.slug() == s@);
            }
            return Ok(AbsAxis::RZ);
        }
        if str_eq(s, "throttle") {
            proof {
                assert(AbsAxis::Throttle.slug() == s@);
                lemma_slug_injective(AbsAxis::Throttle, choose|k: AbsAxis| k.slug() == s@);
            }
            return Ok(AbsAxis::Throttle);
        }
        if str_eq(s, "rudder") {
            proof {
                assert(AbsAxis::Rudder.slug() == s@);
                lemma_slug_injective(AbsAxis::Rudder, choose|k: AbsAxis| k.slug() == s@);
            }
            return Ok(AbsAxis::Rudder);
        }
        if str_eq(s, "wheel") {
            proof {
                assert(AbsAxis::Wheel.slug() == s@);
                lemma_slug_injective(AbsAxis::Wheel, choose|k: AbsAxis| k.slug() == s@);
            }
            return Ok(AbsAxis::Wheel);
        }
        if str_eq(s, "gas") {
            proof {
                assert(AbsAxis::Gas.slug() == s@);
                lemma_slug_injective(AbsAxis::Gas, choose|k: AbsAxis| k.slug() == s@);
            }
            return Ok(AbsAxis::Gas);
        }
        if str_eq(s, "brake") {
            proof {
                assert(AbsAxis::Brake.slug() == s@);
                lemma_slug_injective(AbsAxis::Brake, choose|k: AbsAxis| k.slug() == s@);
            }
            return Ok(AbsAxis::Brake);
        }
        if str_eq(s, "hat0x") {
            proof {
                assert(AbsAxis::Hat0X.slug() == s@);
                lemma_slug_injective(AbsAxis::Hat0X, choose|k: AbsAxis| k.slug() == s@);
            }
            return Ok(AbsAxis::Hat0X);
        }
        if str_eq(s, "hat0y") {
            proof {
                assert(AbsAxis::Hat0Y.slug() == s@);
                lemma_slug_injective(AbsAxis::Hat0Y, choose|k: AbsAxis| k.slug() == s@);
            }
            return Ok(AbsAxis::Hat0Y);
        }
        if str_eq(s, "hat1x") {
            proof {
                assert(AbsAxis::Hat1X.slug() == s@);
                lemma_slug_injective(AbsAxis::Hat1X, choose|k: AbsAxis| k.slug() == s@);
            }
            return Ok(AbsAxis::Hat1X);
        }
        if str_eq(s, "hat1y") {
            proof {
                assert(AbsAxis::Hat1Y.slug() == s@);
                lemma_slug_injective(AbsAxis::Hat1Y, choose|k: AbsAxis| k.slug() == s@);
            }
            return Ok(AbsAxis::Hat1Y);
        }
        if str_eq(s, "hat2x") {
            proof {
                assert(AbsAxis::Hat2X.slug() == s@);
                lemma_slug_injective(AbsAxis::Hat2X, choose|k: AbsAxis| k.slug() == s@);
            }
            return Ok(AbsAxis::Hat2X);
        }
        if str_eq(s, "hat2y") {
            proof {
                assert(AbsAxis::Hat2Y.slug() == s@);
                lemma_slug_injective(AbsAxis::Hat2Y, choose|k: AbsAxis| k.slug() == s@);
            }
            return Ok(AbsAxis::Hat2Y);
        }
        if str_eq(s, "hat3x") {
            proof {
                assert(AbsAxis::Hat3X.slug() == s@);
                lemma_slug_injective(AbsAxis::Hat3X, choose|k: AbsAxis| k.slug() == s@);
            }
            return Ok(AbsAxis::Hat3X);
        }
        if str_eq(s, "hat3y") {
            proof {
                assert(AbsAxis::Hat3Y.slug() == s@);
                lemma_slug_injective(AbsAxis::Hat3Y, choose|k: AbsAxis| k.slug() == s@);
            }
            return Ok(AbsAxis::Hat3Y);
        }
        if str_eq(s, "pressure") {
            proof {
                assert(AbsAxis::Pressure.slug() == s@);
                lemma_slug_injective(AbsAxis::Pressure, choose|k: AbsAxis| k.slug() == s@);
            }
            return Ok(AbsAxis::Pressure);
        }
        if str_eq(s, "distance") {
            proof {
                assert(AbsAxis::Distance.slug() == s@);
                lemma_slug_injective(AbsAxis::Distance, choose|k: AbsAxis| k.slug() == s@);
            }
            return Ok(AbsAxis::Distance);
        }
        if str_eq(s, "tilt_x") {
            proof {
                assert(AbsAxis::TiltX.slug() == s@);
                lemma_slug_injective(AbsAxis::TiltX, choose|k: AbsAxis| k.slug() == s@);
            }
            return Ok(AbsAxis::TiltX);
        }
        if str_eq(s, "tilt_y") {
            proof {
                assert(AbsAxis::TiltY.slug() == s@);
                lemma_slug_injective(AbsAxis::TiltY, choose|k: AbsAxis| k.slug() == s@);
            }
            return Ok(AbsAxis::TiltY);
        }
        if str_eq(s, "tool_width") {
            proof {
                assert(AbsAxis::ToolWidth.slug() == s@);
                lemma_slug_injective(AbsAxis::ToolWidth, choose|k: AbsAxis| k.slug() == s@);
            }
            return Ok(AbsAxis::ToolWidth);
        }
        if str_eq(s, "volume") {
            proof {
                assert(AbsAxis::Volume.slug() == s@);
                lemma_slug_injective(AbsAxis::Volume, choose|k: AbsAxis| k.slug() == s@);
            }
            return Ok(AbsAxis::Volume);
        }
        if str_eq(s, "mt_slot") {
            proof {
                assert(AbsAxis::MtSlot.slug() == s@);
                lemma_slug_injective(AbsAxis::MtSlot, choose|k: AbsAxis| k.slug() == s@);
            }
            return Ok(AbsAxis::MtSlot);
        }
        if str_eq(s, "mt_touch_major") {
            proof {
                assert(AbsAxis::MtTouchMajor.slug() == s@);
                lemma_slug_injective(AbsAxis::MtTouchMajor, choose|k: AbsAxis| k.slug() == s@);
            }
            return Ok(AbsAxis::MtTouchMajor);
        }
        if str_eq(s, "mt_touch_minor") {
            proof {
                assert(AbsAxis::MtTouchMinor.slug() == s@);
                lemma_slug_injective(AbsAxis::MtTouchMinor, choose|k: AbsAxis| k.slug() == s@);
            }
            return Ok(AbsAxis::MtTouchMinor);
        }
        if str_eq(s, "mt_width_major") {
            proof {
                assert(AbsAxis::MtWidthMajor.slug() == s@);
                lemma_slug_injective(AbsAxis::MtWidthMajor, choose|k: AbsAxis| k.slug() == s@);
            }
            return Ok(AbsAxis::MtWidthMajor);
        }
        if str_eq(s, "mt_width_minor") {
            proof {
                assert(AbsAxis::MtWidthMinor.slug() == s@);
                lemma_slug_injective(AbsAxis::MtWidthMinor, choose|k: AbsAxis| k.slug() == s@);
            }
            return Ok(AbsAxis::MtWidthMinor);
        }
        if str_eq(s, "mt_orientation") {
            proof {
                assert(AbsAxis::MtOrientation.slug() == s@);
                lemma_slug_injective(AbsAxis::MtOrientation, choose|k: AbsAxis| k.slug() == s@);
            }
            return Ok(AbsAxis::MtOrientation);
        }
        if str_eq(s, "mt_position_x") {
            proof {
                assert(AbsAxis::MtPositionX.slug() == s@);
                lemma_slug_injective(AbsAxis::MtPositionX, choose|k: AbsAxis| k.slug() == s@);
            }
            return Ok(AbsAxis::MtPositionX);
        }
        if str_eq(s, "mt_position_y") {
            proof {
                assert(AbsAxis::MtPositionY.slug() == s@);
                lemma_slug_injective(AbsAxis::MtPositionY, choose|k: AbsAxis| k.slug() == s@);
            }
            return Ok(AbsAxis::MtPositionY);
        }
        if str_eq(s, "mt_tool_type") {
            proof {
                assert(AbsAxis::MtToolType.slug() == s@);
                lemma_slug_injective(AbsAxis::MtToolType, choose|k: AbsAxis| k.slug() == s@);
            }
            return Ok(AbsAxis::MtToolType);
        }
        if str_eq(s, "mt_blob_id") {
            proof {
                assert(AbsAxis::MtBlobId.slug() == s@);
                lemma_slug_injective(AbsAxis::MtBlobId, choose|k: AbsAxis| k.slug() == s@);
            }
            return Ok(AbsAxis::MtBlobId);
        }
        if str_eq(s, "mt_tracking_id") {
            proof {
                assert(AbsAxis::MtTrackingId.slug() == s@);
                lemma_slug_injective(AbsAxis::MtTrackingId, choose|k: AbsAxis| k.slug() == s@);
            }
            return Ok(AbsAxis::MtTrackingId);
        }
        if str_eq(s, "mt_pressure") {
            proof {
                assert(AbsAxis::MtPressure.slug() == s@);
                lemma_slug_injective(AbsAxis::MtPressure, choose|k: AbsAxis| k.slug() == s@);
            }
            return Ok(AbsAxis::MtPressure);
        }
        if str_eq(s, "mt_distance") {
            proof {
                assert(AbsAxis::MtDistance.slug() == s@);
                lemma_slug_injective(AbsAxis::MtDistance, choose|k: AbsAxis| k.slug() == s@);
            }
            return Ok(AbsAxis::MtDistance);
        }
        if str_eq(s, "mt_tool_x") {
            proof {
                assert(AbsAxis::MtToolX.slug() == s@);
                lemma_slug_injective(AbsAxis::MtToolX, choose|k: AbsAxis| k.slug() == s@);
            }
            return Ok(AbsAxis::MtToolX);
        }
        if str_eq(s, "mt_tool_y") {
            proof {
                assert(AbsAxis::MtToolY.slug() == s@);
                lemma_slug_injective(AbsAxis::MtToolY, choose|k: AbsAxis| k.slug() == s@);
            }
            return Ok(AbsAxis::MtToolY);
        }
        assert forall|k: AbsAxis| k.slug() != s@ by {}
        Err(())
    }
}

impl std::str::FromStr for AbsAxis {
    type Err = ();

    fn from_str(s: &str) -> Result<AbsAxis, ()> {
        AbsAxis::from_slug(s)
    }
}

proof fn lemma_guess_from_slug(k: AbsAxis)
    ensures
        AbsAxis::guess_from_slug(k.slug()) == k,
{
    match k {
        AbsAxis::X => reveal_strlit("x"),
        AbsAxis::Y => reveal_strlit("y"),
        AbsAxis::Z => reveal_strlit("z"),
        AbsAxis::RX => reveal_strlit("rx"),
        AbsAxis::RY => reveal_strlit("ry"),
        AbsAxis::RZ => reveal_strlit("rz"),
        AbsAxis::Throttle => reveal_strlit("throttle"),
        AbsAxis::Rudder => reveal_strlit("rudder"),
        AbsAxis::Wheel => reveal_strlit("wheel"),
        AbsAxis::Gas => reveal_strlit("gas"),
        AbsAxis::Brake => reveal_strlit("brake"),
        AbsAxis::Hat0X => reveal_strlit("hat0x"),
        AbsAxis::Hat0Y => reveal_strlit("hat0y"),
        AbsAxis::Hat1X => reveal_strlit("hat1x"),
        AbsAxis::Hat1Y => reveal_strlit("hat1y"),
        AbsAxis::Hat2X => reveal_strlit("hat2x"),
        AbsAxis::Hat2Y => reveal_strlit("hat2y"),
        AbsAxis::Hat3X => reveal_strlit("hat3x"),
        AbsAxis::Hat3Y => reveal_strlit("hat3y"),
        AbsAxis::Pressure => reveal_strlit("pressure"),
        AbsAxis::Distance => reveal_strlit("distance"),
        AbsAxis::TiltX => reveal_strlit("tilt_x"),
        AbsAxis::TiltY => reveal_strlit("tilt_y"),
        AbsAxis::ToolWidth => reveal_strlit("tool_width"),
        AbsAxis::Volume => reveal_strlit("volume"),
        AbsAxis::MtSlot => reveal_strlit("mt_slot"),
        AbsAxis::MtTouchMajor => reveal_strlit("mt_touch_major"),
        AbsAxis::MtTouchMinor => reveal_strlit("mt_touch_minor"),
        AbsAxis::MtWidthMajor => reveal_strlit("mt_width_major"),
        AbsAxis::MtWidthMinor => reveal_strlit("mt_width_minor"),
        AbsAxis::MtOrientation => reveal_strlit("mt_orientation"),
        AbsAxis::MtPositionX => reveal_strlit("mt_position_x"),
        AbsAxis::MtPositionY => reveal_strlit("mt_position_y"),
        AbsAxis::MtToolType => reveal_strlit("mt_tool_type"),
        AbsAxis::MtBlobId => reveal_strlit("mt_blob_id"),
        AbsAxis::MtTrackingId => reveal_strlit("mt_tracking_id"),
        AbsAxis::MtPressure => reveal_strlit("mt_pressure"),
        AbsAxis::MtDistance => reveal_strlit("mt_distance"),
        AbsAxis::MtToolX => reveal_strlit("mt_tool_x"),
        AbsAxis::MtToolY => reveal_strlit("mt_tool_y"),
    }
}

/// No two variants share a name.
pub proof fn lemma_slug_injective(a: AbsAxis, b: AbsAxis)
    requires
        a.slug() == b.slug(),
    ensures
        a == b,
{
    lemma_guess_from_slug(a);
    lemma_guess_from_slug(b);
}

/// Reading the name of a variant gives that variant back, and whatever reads as a variant
/// is exactly that variant's name.
pub proof fn lemma_slug_round_trip(k: AbsAxis, s: Seq<char>)
    ensures
        AbsAxis::from_slug_spec(k.slug()) == Ok::<AbsAxis, ()>(k),
        AbsAxis::from_slug_spec(s) matches Ok(j) ==> j.slug() == s,
{
    lemma_slug_injective(k, choose|j: AbsAxis| j.slug() == k.slug());
}

/// Decoding the kernel code of a variant gives that variant back, and whatever decodes
/// to a variant is exactly that variant's code.
pub proof fn lemma_code_round_trip(k: AbsAxis, c: u16)
    ensures
        AbsAxis::from_code_spec(k.code_spec()) == Ok::<AbsAxis, ()>(k),
        AbsAxis::from_code_spec(c) matches Ok(j) ==> j.code_spec() == c,
{
}

} // verus!
