use vstd::prelude::*;

use crate::text::str_eq;

verus! {

/// Relative axes, each backed by the kernel's numeric relative axis code.
#[derive(Debug, Copy, Clone, PartialEq, Eq, Structural)]
pub enum RelAxis {
    X,
    Y,
    Z,
    RX,
    RY,
    RZ,
    HWheel,
    Dial,
    Wheel,
    HiResWheel,
    HiResHWheel,
}

impl RelAxis {
    /// The canonical lowercase name of the variant.
    pub open spec fn slug(self) -> Seq<char> {
        match self {
            RelAxis::X => "x"@,
            RelAxis::Y => "y"@,
            RelAxis::Z => "z"@,
            RelAxis::RX => "rx"@,
            RelAxis::RY => "ry"@,
            RelAxis::RZ => "rz"@,
            RelAxis::HWheel => "hwheel"@,
            RelAxis::Dial => "dial"@,
            RelAxis::Wheel => "wheel"@,
            RelAxis::HiResWheel => "hi_res_wheel"@,
            RelAxis::HiResHWheel => "hi_res_hwheel"@,
        }
    }

    /// The kernel's relative axis code of the variant.
    pub open spec fn code_spec(self) -> u16 {
        match self {
            RelAxis::X => 0,
            RelAxis::Y => 1,
            RelAxis::Z => 2,
            RelAxis::RX => 3,
            RelAxis::RY => 4,
            RelAxis::RZ => 5,
            RelAxis::HWheel => 6,
            RelAxis::Dial => 7,
            RelAxis::Wheel => 8,
            RelAxis::HiResWheel => 11,
            RelAxis::HiResHWheel => 12,
        }
    }

    /// The variant whose kernel code is `c`, if any.
    pub open spec fn from_code_spec(c: u16) -> Result<RelAxis, ()> {
        match c {
            0 => Ok(RelAxis::X),
            1 => Ok(RelAxis::Y),
            2 => Ok(RelAxis::Z),
            3 => Ok(RelAxis::RX),
            4 => Ok(RelAxis::RY),
            5 => Ok(RelAxis::RZ),
            6 => Ok(RelAxis::HWheel),
            7 => Ok(RelAxis::Dial),
            8 => Ok(RelAxis::Wheel),
            11 => Ok(RelAxis::HiResWheel),
            12 => Ok(RelAxis::HiResHWheel),
            _ => Err(()),
        }
    }

    /// The variant whose name is `s`, if any.
    pub open spec fn from_slug_spec(s: Seq<char>) -> Result<RelAxis, ()> {
        if exists|k: RelAxis| k.slug() == s {
            Ok(choose|k: RelAxis| k.slug() == s)
        } else {
            Err(())
        }
    }

    /// Names the only variant that `s` can be the name of, judging by its length and by
    /// the characters that tell the names of equal length apart.
    pub open spec fn guess_from_slug(s: Seq<char>) -> RelAxis {
        if s.len() == 1 {
            if s[0] == 'x' {
                RelAxis::X
            } else if s[0] == 'y' {
                RelAxis::Y
            } else {
                RelAxis::Z
            }
        } else if s.len() == 2 {
            if s[1] == 'x' {
                RelAxis::RX
            } else if s[1] == 'y' {
                RelAxis::RY
            } else {
                RelAxis::RZ
            }
        } else if s.len() == 4 {
            RelAxis::Dial
        } else if s.len() == 5 {
            RelAxis::Wheel
        } else if s.len() == 6 {
            RelAxis::HWheel
        } else if s.len() == 12 {
            RelAxis::HiResWheel
        } else {
            RelAxis::HiResHWheel
        }
    }

    pub fn as_str(&self) -> (r: &'static str)
        ensures
            r@ == self.slug(),
    {
        match self {
            RelAxis::X => "x",
            RelAxis::Y => "y",
            RelAxis::Z => "z",
            RelAxis::RX => "rx",
            RelAxis::RY => "ry",
            RelAxis::RZ => "rz",
            RelAxis::HWheel => "hwheel",
            RelAxis::Dial => "dial",
            RelAxis::Wheel => "wheel",
            RelAxis::HiResWheel => "hi_res_wheel",
            RelAxis::HiResHWheel => "hi_res_hwheel",
        }
    }

    pub fn code(&self) -> (r: u16)
        ensures
            r == self.code_spec(),
    {
        match self {
            RelAxis::X => 0,
            RelAxis::Y => 1,
            RelAxis::Z => 2,
            RelAxis::RX => 3,
            RelAxis::RY => 4,
            RelAxis::RZ => 5,
            RelAxis::HWheel => 6,
            RelAxis::Dial => 7,
            RelAxis::Wheel => 8,
            RelAxis::HiResWheel => 11,
            RelAxis::HiResHWheel => 12,
        }
    }

    pub fn try_from_code(c: u16) -> (r: Result<RelAxis, ()>)
        ensures
            r == RelAxis::from_code_spec(c),
    {
        match c {
            0 => Ok(RelAxis::X),
            1 => Ok(RelAxis::Y),
            2 => Ok(RelAxis::Z),
            3 => Ok(RelAxis::RX),
            4 => Ok(RelAxis::RY),
            5 => Ok(RelAxis::RZ),
            6 => Ok(RelAxis::HWheel),
            7 => Ok(RelAxis::Dial),
            8 => Ok(RelAxis::Wheel),
            11 => Ok(RelAxis::HiResWheel),
            12 => Ok(RelAxis::HiResHWheel),
            _ => Err(()),
        }
    }

    pub fn from_slug(s: &str) -> (r: Result<RelAxis, ()>)
        ensures
            r == RelAxis::from_slug_spec(s@),
    {
        if str_eq(s, "x") {
            proof {
                assert(RelAxis::X.slug() == s@);
                lemma_slug_injective(RelAxis::X, choose|k: RelAxis| k.slug() == s@);
            }
            return Ok(RelAxis::X);
        }
        if str_eq(s, "y") {
            proof {
                assert(RelAxis::Y.slug() == s@);
                lemma_slug_injective(RelAxis::Y, choose|k: RelAxis| k.slug() == s@);
            }
            return Ok(RelAxis::Y);
        }
        if str_eq(s, "z") {
            proof {
                assert(RelAxis::Z.slug() == s@);
                lemma_slug_injective(RelAxis::Z, choose|k: RelAxis| k.slug() == s@);
            }
            return Ok(RelAxis::Z);
        }
        if str_eq(s, "rx") {
            proof {
                assert(RelAxis::RX.slug() == s@);
                lemma_slug_injective(RelAxis::RX, choose|k: RelAxis| k.slug() == s@);
            }
            return Ok(RelAxis::RX);
        }
        if str_eq(s, "ry") {
            proof {
                assert(RelAxis::RY.slug() == s@);
                lemma_slug_injective(RelAxis::RY, choose|k: RelAxis| k.slug() == s@);
            }
            return Ok(RelAxis::RY);
        }
        if str_eq(s, "rz") {
            proof {
                assert(RelAxis::RZ.slug() == s@);
                lemma_slug_injective(RelAxis::RZ, choose|k: RelAxis| k.slug() == s@);
            }
            return Ok(RelAxis::RZ);
        }
        if str_eq(s, "hwheel") {
            proof {
                assert(RelAxis::HWheel.slug() == s@);
                lemma_slug_injective(RelAxis::HWheel, choose|k: RelAxis| k.slug() == s@);
            }
            return Ok(RelAxis::HWheel);
        }
        if str_eq(s, "dial") {
            proof {
                assert(RelAxis::Dial.slug() == s@);
                lemma_slug_injective(RelAxis::Dial, choose|k: RelAxis| k.slug() == s@);
            }
            return Ok(RelAxis::Dial);
        }
        if str_eq(s, "wheel") {
            proof {
                assert(RelAxis::Wheel.slug() == s@);
                lemma_slug_injective(RelAxis::Wheel, choose|k: RelAxis| k.slug() == s@);
            }
            return Ok(RelAxis::Wheel);
        }
        if str_eq(s, "hi_res_wheel") {
            proof {
                assert(RelAxis::HiResWheel.slug() == s@);
                lemma_slug_injective(RelAxis::HiResWheel, choose|k: RelAxis| k.slug() == s@);
            }
            return Ok(RelAxis::HiResWheel);
        }
        if str_eq(s, "hi_res_hwheel") {
            proof {
                assert(RelAxis::HiResHWheel.slug() == s@);
                lemma_slug_injective(RelAxis::HiResHWheel, choose|k: RelAxis| k.slug() == s@);
            }
            return Ok(RelAxis::HiResHWheel);
        }
        assert forall|k: RelAxis| k.slug() != s@ by {}
        Err(())
    }
}

impl std::str::FromStr for RelAxis {
    type Err = ();

    fn from_str(s: &str) -> Result<RelAxis, ()> {
        RelAxis::from_slug(s)
    }
}

proof fn lemma_guess_from_slug(k: RelAxis)
    ensures
        RelAxis::guess_from_slug(k.slug()) == k,
{
    match k {
        RelAxis::X => reveal_strlit("x"),
        RelAxis::Y => reveal_strlit("y"),
        RelAxis::Z => reveal_strlit("z"),
        RelAxis::RX => reveal_strlit("rx"),
        RelAxis::RY => reveal_strlit("ry"),
        RelAxis::RZ => reveal_strlit("rz"),
        RelAxis::HWheel => reveal_strlit("hwheel"),
        RelAxis::Dial => reveal_strlit("dial"),
        RelAxis::Wheel => reveal_strlit("wheel"),
        RelAxis::HiResWheel => reveal_strlit("hi_res_wheel"),
        RelAxis::HiResHWheel => reveal_strlit("hi_res_hwheel"),
    }
}

/// No two variants share a name.
pub proof fn lemma_slug_injective(a: RelAxis, b: RelAxis)
    requires
        a.slug() == b.slug(),
    ensures
        a == b,
{
    lemma_guess_from_slug(a);
    lemma_guess_from_slug(b);
}

/// Reading the name of a variant gives that variant back, and whatever reads as a variant
/// is exactly that variant's name.
pub proof fn lemma_slug_round_trip(k: RelAxis, s: Seq<char>)
    ensures
        RelAxis::from_slug_spec(k.slug()) == Ok::<RelAxis, ()>(k),
        RelAxis::from_slug_spec(s) matches Ok(j) ==> j.slug() == s,
{
    lemma_slug_injective(k, choose|j: RelAxis| j.slug() == k.slug());
}

/// Decoding the kernel code of a variant gives that variant back, and whatever decodes
/// to a variant is exactly that variant's code.
pub proof fn lemma_code_round_trip(k: RelAxis, c: u16)
    ensures
        RelAxis::from_code_spec(k.code_spec()) == Ok::<RelAxis, ()>(k),
        RelAxis::from_code_spec(c) matches Ok(j) ==> j.code_spec() == c,
{
}

} // verus!
