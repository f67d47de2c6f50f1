//! Shared basic types: the library's error type with its deterministic
//! messages, a decimal formatter used for those messages, a pixel point, and
//! a simple colour triple.

use vstd::prelude::*;
use vstd::string::StringExecFns;

verus! {

/// The decimal digit character for a single digit value.
pub open spec fn digit_char(d: nat) -> char {
    if d == 0 {
        '0'
    } else if d == 1 {
        '1'
    } else if d == 2 {
        '2'
    } else if d == 3 {
        '3'
    } else if d == 4 {
        '4'
    } else if d == 5 {
        '5'
    } else if d == 6 {
        '6'
    } else if d == 7 {
        '7'
    } else if d == 8 {
        '8'
    } else {
        '9'
    }
}

/// The decimal representation of a natural number, most significant digit
/// first, without leading zeros (a single `'0'` for zero).
pub open spec fn dec_digits(n: nat) -> Seq<char>
    decreases n,
{
    if n < 10 {
        seq![digit_char(n)]
    } else {
        dec_digits(n / 10).push(digit_char(n % 10))
    }
}

/// The decimal representation of an integer: its magnitude's digits, with a
/// leading `'-'` when the integer is negative.
pub open spec fn int_repr(i: int) -> Seq<char> {
    if i >= 0 {
        dec_digits(i as nat)
    } else {
        seq!['-'] + dec_digits((-i) as nat)
    }
}

/// The message carried by a conversion error whose offending value reads as
/// `v`.
pub open spec fn conversion_message(v: Seq<char>) -> Seq<char> {
    "Conversion error or overflow while converting \""@ + v + "\""@
}

fn digit_str(d: u64) -> (s: &'static str)
    requires
        d < 10,
    ensures
        s@ == seq![digit_char(d as nat)],
{
    let s: &'static str = match d {
        0 => "0",
        1 => "1",
        2 => "2",
        3 => "3",
        4 => "4",
        5 => "5",
        6 => "6",
        7 => "7",
        8 => "8",
        _ => "9",
    };
    proof {
        reveal_strlit("0");
        reveal_strlit("1");
        reveal_strlit("2");
        reveal_strlit("3");
        reveal_strlit("4");
        reveal_strlit("5");
        reveal_strlit("6");
        reveal_strlit("7");
        reveal_strlit("8");
        reveal_strlit("9");
        assert(s@ =~= seq![digit_char(d as nat)]);
    }
    s
}

/// The decimal representation of `n`, as a freshly built string.
pub fn u64_decimal(n: u64) -> (s: String)
    ensures
        s@ == dec_digits(n as nat),
    decreases n,
{
    if n < 10 {
        String::from_str(digit_str(n))
    } else {
        let mut s = u64_decimal(n / 10);
        s.append(digit_str(n % 10));
        proof {
            assert(s@ =~= dec_digits(n as nat));
        }
        s
    }
}

/// The error type of the library.  `ConversionError` carries the decimal
/// reading of the offending value, so that its message is deterministic.
#[derive(Debug)]
pub enum LabyrinthError {
    CouldNotGetDefaultScreen,
    ConversionError { value: String },
    InternalError,
}

impl LabyrinthError {
    /// What `message` returns, as a sequence of characters.
    pub open spec fn spec_message(&self) -> Seq<char> {
        match self {
            LabyrinthError::CouldNotGetDefaultScreen => "Could not get default screen"@,
            LabyrinthError::ConversionError { value } => conversion_message(value@),
            LabyrinthError::InternalError => "An internal error occurred"@,
        }
    }

    /// The human-readable message for this error.
    pub fn message(&self) -> (s: String)
        ensures
            s@ == self.spec_message(),
    {
        match self {
            LabyrinthError::CouldNotGetDefaultScreen => {
                String::from_str("Could not get default screen")
            },
            LabyrinthError::ConversionError { value } => {
                let s = String::from_str("Conversion error or overflow while converting \"");
                let s = s.concat(value.as_str());
                s.concat("\"")
            },
            LabyrinthError::InternalError => String::from_str("An internal error occurred"),
        }
    }
}

/// A point in pixel coordinates.
#[derive(Eq, PartialEq, Structural, Copy, Clone, Debug)]
pub struct Point {
    pub x: u32,
    pub y: u32,
}

impl From<(u32, u32)> for Point {
    fn from(t: (u32, u32)) -> (p: Point) {
        Point { x: t.0, y: t.1 }
    }
}

impl vstd::std_specs::convert::FromSpecImpl<(u32, u32)> for Point {
    open spec fn obeys_from_spec() -> bool {
        true
    }

    open spec fn from_spec(t: (u32, u32)) -> Point {
        Point { x: t.0, y: t.1 }
    }
}

impl From<Point> for (u32, u32) {
    fn from(p: Point) -> (t: (u32, u32)) {
        (p.x, p.y)
    }
}

impl vstd::std_specs::convert::FromSpecImpl<Point> for (u32, u32) {
    open spec fn obeys_from_spec() -> bool {
        true
    }

    open spec fn from_spec(p: Point) -> (u32, u32) {
        (p.x, p.y)
    }
}

/// A colour as a red/green/blue triple over a copyable component type.
#[derive(Copy, Clone, Debug)]
pub struct GeneralColor<T: Copy> {
    pub red: T,
    pub green: T,
    pub blue: T,
}

impl<T: Copy> GeneralColor<T> {
    /// Builds a colour from a `(red, green, blue)` triple.
    pub fn from_tuple(t: (T, T, T)) -> (c: GeneralColor<T>)
        ensures
            c == (GeneralColor { red: t.0, green: t.1, blue: t.2 }),
    {
        GeneralColor { red: t.0, green: t.1, blue: t.2 }
    }

    /// The `(red, green, blue)` triple of this colour.
    pub fn to_tuple(&self) -> (t: (T, T, T))
        ensures
            t == (self.red, self.green, self.blue),
    {
        (self.red, self.green, self.blue)
    }

    pub fn red(&self) -> (r: T)
        ensures
            r == self.red,
    {
        self.red
    }

    pub fn green(&self) -> (r: T)
        ensures
            r == self.green,
    {
        self.green
    }

    pub fn blue(&self) -> (r: T)
        ensures
            r == self.blue,
    {
        self.blue
    }
}

impl GeneralColor<u32> {
    /// White, with each component at full intensity.
    pub fn get_white() -> (c: GeneralColor<u32>)
        ensures
            c == (GeneralColor { red: 255u32, green: 255u32, blue: 255u32 }),
    {
        GeneralColor { red: 255, green: 255, blue: 255 }
    }

    /// Black, with each component at zero.
    pub fn get_black() -> (c: GeneralColor<u32>)
        ensures
            c == (GeneralColor { red: 0u32, green: 0u32, blue: 0u32 }),
    {
        GeneralColor { red: 0, green: 0, blue: 0 }
    }

    /// Pure blue.
    pub fn get_blue() -> (c: GeneralColor<u32>)
        ensures
            c == (GeneralColor { red: 0u32, green: 0u32, blue: 255u32 }),
    {
        GeneralColor { red: 0, green: 0, blue: 255 }
    }
}

} // verus!
