//! Canvas sizing.
//!
//! The canvas element mirrors the page body's client size: on load and on
//! every resize its `width` and `height` attributes are set to the body's
//! client width and height, written in decimal. This module formats those
//! attribute values and models the pair of attributes as plain strings.

use vstd::prelude::*;
use vstd::string::StringExecFns;

verus! {

/// The decimal digit character for `d`, for `0 <= d <= 9`.
pub open spec fn digit_char(d: int) -> char {
    if d == 0 {
        '0'
    } else if d == 1 {
        '1'
    } else if d == 2 {
        '2'
    } else if d == 3 {
        '3'
    } else if d == 4 {
        '4'
    } else if d == 5 {
        '5'
    } else if d == 6 {
        '6'
    } else if d == 7 {
        '7'
    } else if d == 8 {
        '8'
    } else {
        '9'
    }
}

/// The decimal digits of `n`, most significant first, with no sign and no
/// leading zero (a single `'0'` for zero itself).
pub open spec fn decimal_of_nat(n: nat) -> Seq<char>
    decreases n,
{
    if n < 10 {
        seq![digit_char(n as int)]
    } else {
        decimal_of_nat(n / 10).push(digit_char((n % 10) as int))
    }
}

/// The decimal rendering of `n`: a leading `'-'` for a negative value,
/// then the digits of its magnitude.
pub open spec fn decimal_of(n: int) -> Seq<char> {
    if n < 0 {
        seq!['-'] + decimal_of_nat((-n) as nat)
    } else {
        decimal_of_nat(n as nat)
    }
}

/// The one-character string for the digit `d`.
fn digit_str(d: u32) -> (s: &'static str)
    requires
        d < 10,
    ensures
        s@ == seq![digit_char(d as int)],
{
    if d == 0 {
        proof {
            reveal_strlit("0");
            assert(("0")@ =~= seq![digit_char(d as int)]);
        }
        "0"
    } else if d == 1 {
        proof {
            reveal_strlit("1");
            assert(("1")@ =~= seq![digit_char(d as int)]);
        }
        "1"
    } else if d == 2 {
        proof {
            reveal_strlit("2");
            assert(("2")@ =~= seq![digit_char(d as int)]);
        }
        "2"
    } else if d == 3 {
        proof {
            reveal_strlit("3");
            assert(("3")@ =~= seq![digit_char(d as int)]);
        }
        "3"
    } else if d == 4 {
        proof {
            reveal_strlit("4");
            assert(("4")@ =~= seq![digit_char(d as int)]);
        }
        "4"
    } else if d == 5 {
        proof {
            reveal_strlit("5");
            assert(("5")@ =~= seq![digit_char(d as int)]);
        }
        "5"
    } else if d == 6 {
        proof {
            reveal_strlit("6");
            assert(("6")@ =~= seq![digit_char(d as int)]);
        }
        "6"
    } else if d == 7 {
        proof {
            reveal_strlit("7");
            assert(("7")@ =~= seq![digit_char(d as int)]);
        }
        "7"
    } else if d == 8 {
        proof {
            reveal_strlit("8");
            assert(("8")@ =~= seq![digit_char(d as int)]);
        }
        "8"
    } else {
        proof {
            reveal_strlit("9");
            assert(("9")@ =~= seq![digit_char(d as int)]);
        }
        "9"
    }
}

/// The decimal digits of `n`, as a string.
pub fn decimal_string_u32(n: u32) -> (s: String)
    ensures
        s@ == decimal_of_nat(n as nat),
    decreases n,
{
    if n < 10 {
        let s = String::from_str(digit_str(n));
        proof {
            assert(s@ =~= decimal_of_nat(n as nat));
        }
        s
    } else {
        let mut s = decimal_string_u32(n / 10);
        s.append(digit_str(n % 10));
        proof {
            assert((n / 10) as nat == (n as nat) / 10);
            assert((n % 10) as nat == (n as nat) % 10);
            assert(s@ =~= decimal_of_nat(n as nat));
        }
        s
    }
}

/// The decimal rendering of `n`, as a string, sign included.
pub fn decimal_string(n: i32) -> (s: String)
    ensures
        s@ == decimal_of(n as int),
{
    if n < 0 {
        let big: i64 = -(n as i64);
        proof {
            assert(0 <= big < 0x1_0000_0000i64);
        }
        let m: u32 = big as u32;
        let mut s = String::from_str("-");
        let rest = decimal_string_u32(m);
        s.append(rest.as_str());
        proof {
            reveal_strlit("-");
            assert(m as nat == (-(n as int)) as nat);
            assert(s@ =~= decimal_of(n as int));
        }
        s
    } else {
        let s = decimal_string_u32(n as u32);
        proof {
            assert((n as u32) as nat == n as nat);
        }
        s
    }
}

/// The canvas element's two size attributes, as the strings written into
/// the page.
#[derive(Debug)]
pub struct CanvasAttrs {
    pub width: String,
    pub height: String,
}

/// The attributes mirror a client size of `client_width` by
/// `client_height`: each attribute is that dimension written in decimal.
pub open spec fn matches_client(a: CanvasAttrs, client_width: int, client_height: int) -> bool {
    a.width@ == decimal_of(client_width) && a.height@ == decimal_of(client_height)
}

/// The attributes for a body whose client size is `client_width` by
/// `client_height`: the sizing done once at load, so the canvas fills the
/// visible page.
pub fn sized_to(client_width: i32, client_height: i32) -> (a: CanvasAttrs)
    ensures
        matches_client(a, client_width as int, client_height as int),
{
    CanvasAttrs { width: decimal_string(client_width), height: decimal_string(client_height) }
}

/// One resize step: replace both attributes with the client size measured
/// at the time of the event. Whatever the attributes held before, they
/// mirror the new client size afterwards.
pub fn apply_resize(a: &mut CanvasAttrs, client_width: i32, client_height: i32)
    ensures
        matches_client(*final(a), client_width as int, client_height as int),
{
    a.width = decimal_string(client_width);
    a.height = decimal_string(client_height);
}

} // verus!
