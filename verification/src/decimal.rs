//! Decimal rendering of byte values: a read byte travels back to the caller
//! as its decimal digits, and the rendering is verified against a spec-level
//! definition of those digits.

use vstd::prelude::*;
use vstd::string::StringExecFns;
use crate::store::MemoryStore;
use crate::store::StoreError;
use crate::store::byte_result;

verus! {

/// The digit character for one decimal digit.
pub open spec fn digit_char(d: int) -> char
    recommends
        0 <= d < 10,
{
    if d == 0 {
        '0'
    } else if d == 1 {
        '1'
    } else if d == 2 {
        '2'
    } else if d == 3 {
        '3'
    } else if d == 4 {
        '4'
    } else if d == 5 {
        '5'
    } else if d == 6 {
        '6'
    } else if d == 7 {
        '7'
    } else if d == 8 {
        '8'
    } else {
        '9'
    }
}

/// The decimal rendering of a byte value: its digits most significant first,
/// with no leading zero (`0` itself renders as one digit).
pub open spec fn decimal_of(v: int) -> Seq<char>
    recommends
        0 <= v < 256,
{
    if v < 10 {
        seq![digit_char(v)]
    } else if v < 100 {
        seq![digit_char(v / 10), digit_char(v % 10)]
    } else {
        seq![digit_char(v / 100), digit_char((v / 10) % 10), digit_char(v % 10)]
    }
}

fn digit_str(d: u8) -> (s: &'static str)
    requires
        d < 10,
    ensures
        s@ == seq![digit_char(d as int)],
{
    proof {
        reveal_strlit("0");
        reveal_strlit("1");
        reveal_strlit("2");
        reveal_strlit("3");
        reveal_strlit("4");
        reveal_strlit("5");
        reveal_strlit("6");
        reveal_strlit("7");
        reveal_strlit("8");
        reveal_strlit("9");
    }
    let s: &'static str = match d {
        0 => "0",
        1 => "1",
        2 => "2",
        3 => "3",
        4 => "4",
        5 => "5",
        6 => "6",
        7 => "7",
        8 => "8",
        _ => "9",
    };
    proof {
        assert(s@ =~= seq![digit_char(d as int)]);
    }
    s
}

/// Renders a byte value as its decimal digits.
pub fn render_decimal(v: u8) -> (s: String)
    ensures
        s@ == decimal_of(v as int),
{
    let mut s = String::new();
    if v >= 100 {
        s.append(digit_str(v / 100));
        s.append(digit_str((v / 10) % 10));
        s.append(digit_str(v % 10));
    } else if v >= 10 {
        s.append(digit_str(v / 10));
        s.append(digit_str(v % 10));
    } else {
        s.append(digit_str(v));
    }
    proof {
        assert(s@ =~= decimal_of(v as int));
    }
    s
}

impl MemoryStore {
    /// Reads one byte and renders it as its decimal digits, the form in which
    /// a read byte is answered to the caller.
    pub fn read_byte_decimal(&self, id: &str, address: u16) -> (r: Result<String, StoreError>)
        ensures
            (match byte_result(self@, id@, address as int) {
                Ok(value) => r matches Ok(s) && s@ == decimal_of(value as int),
                Err(e) => r matches Err(actual) && actual == e,
            }),
    {
        match self.read_byte(id, address) {
            Ok(value) => Ok(render_decimal(value)),
            Err(e) => Err(e),
        }
    }
}

} // verus!
