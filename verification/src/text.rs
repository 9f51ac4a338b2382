//! Text rendering of scalar values, and small string helpers used by
//! the placeholder and directive scanners.

use vstd::prelude::*;

use crate::value::ConfigValue;
use crate::value::Tree;

verus! {

/// The decimal digit character for one digit value.
pub open spec fn dec_digit_char(d: int) -> char {
    if d == 0 {
        '0'
    } else if d == 1 {
        '1'
    } else if d == 2 {
        '2'
    } else if d == 3 {
        '3'
    } else if d == 4 {
        '4'
    } else if d == 5 {
        '5'
    } else if d == 6 {
        '6'
    } else if d == 7 {
        '7'
    } else if d == 8 {
        '8'
    } else {
        '9'
    }
}

/// The decimal rendering of a non-negative integer, most significant
/// digit first.
pub open spec fn dec_seq(n: nat) -> Seq<char>
    decreases n,
{
    if n < 10 {
        seq![dec_digit_char(n as int)]
    } else {
        dec_seq(n / 10) + seq![dec_digit_char((n % 10) as int)]
    }
}

/// The decimal rendering of an integer, with a leading minus sign when
/// negative.
pub open spec fn int_str(n: int) -> Seq<char> {
    if n < 0 {
        seq!['-'] + dec_seq((-n) as nat)
    } else {
        dec_seq(n as nat)
    }
}

/// The rendering of a boolean.
pub open spec fn bool_str(b: bool) -> Seq<char> {
    if b {
        seq!['t', 'r', 'u', 'e']
    } else {
        seq!['f', 'a', 'l', 's', 'e']
    }
}

fn digit_string(d: u64) -> (r: String)
    requires
        d < 10,
    ensures
        r@ == seq![dec_digit_char(d as int)],
{
    let s = if d == 0 {
        "0"
    } else if d == 1 {
        "1"
    } else if d == 2 {
        "2"
    } else if d == 3 {
        "3"
    } else if d == 4 {
        "4"
    } else if d == 5 {
        "5"
    } else if d == 6 {
        "6"
    } else if d == 7 {
        "7"
    } else if d == 8 {
        "8"
    } else {
        "9"
    };
    proof {
        reveal_strlit("0");
        reveal_strlit("1");
        reveal_strlit("2");
        reveal_strlit("3");
        reveal_strlit("4");
        reveal_strlit("5");
        reveal_strlit("6");
        reveal_strlit("7");
        reveal_strlit("8");
        reveal_strlit("9");
        assert(s@ =~= seq![dec_digit_char(d as int)]);
    }
    s.to_owned()
}

fn dec_string(mag: u64) -> (r: String)
    ensures
        r@ == dec_seq(mag as nat),
    decreases mag,
{
    if mag < 10 {
        digit_string(mag)
    } else {
        let mut s = dec_string(mag / 10);
        let last = digit_string(mag % 10);
        s.append(last.as_str());
        s
    }
}

/// The decimal text of an integer.
pub fn int_to_string(n: i64) -> (r: String)
    ensures
        r@ == int_str(n as int),
{
    if n >= 0 {
        dec_string(n as u64)
    } else {
        let mag: u64 = if n == i64::MIN {
            9223372036854775808u64
        } else {
            (-n) as u64
        };
        assert(mag as int == -(n as int));
        let mut s = String::new();
        proof {
            reveal_strlit("-");
        }
        s.append("-");
        let digits = dec_string(mag);
        s.append(digits.as_str());
        assert(s@ =~= int_str(n as int));
        s
    }
}

/// The text of a boolean.
pub fn bool_to_string(b: bool) -> (r: String)
    ensures
        r@ == bool_str(b),
{
    let s = if b {
        "true"
    } else {
        "false"
    };
    proof {
        reveal_strlit("true");
        reveal_strlit("false");
        assert(s@ =~= bool_str(b));
    }
    s.to_owned()
}

/// The text a scalar renders to during placeholder substitution:
/// strings pass through, numbers and booleans render as text, null is
/// empty, and arrays and objects have no text.
pub open spec fn scalar_string(t: Tree) -> Option<Seq<char>> {
    match t {
        Tree::Str(s) => Some(s),
        Tree::Int(n) => Some(int_str(n)),
        Tree::Bool(b) => Some(bool_str(b)),
        Tree::Null => Some(Seq::empty()),
        _ => None,
    }
}

/// The text of a scalar value, if it is one.
pub fn value_as_string(value: &ConfigValue) -> (r: Option<String>)
    ensures
        match r {
            Some(s) => scalar_string(value@) == Some(s@),
            None => scalar_string(value@) is None,
        },
{
    match value {
        ConfigValue::Str(s) => Some(s.clone()),
        ConfigValue::Int(n) => Some(int_to_string(*n)),
        ConfigValue::Bool(b) => Some(bool_to_string(*b)),
        ConfigValue::Null => Some(String::new()),
        _ => None,
    }
}

/// Whether `p` is a prefix of `s`.
pub open spec fn has_prefix(s: Seq<char>, p: Seq<char>) -> bool {
    p.len() <= s.len() && s.subrange(0, p.len() as int) == p
}

/// Whether the string starts with the given prefix.
#[verifier::loop_isolation(false)]
pub fn str_has_prefix(s: &str, p: &str) -> (r: bool)
    ensures
        r == has_prefix(s@, p@),
{
    let s_len = s.unicode_len();
    let p_len = p.unicode_len();
    if p_len > s_len {
        assert(!has_prefix(s@, p@));
        return false;
    }
    let mut i: usize = 0;
    while i < p_len
        invariant
            i <= p_len,
            forall|k: int| 0 <= k < i ==> s@[k] == p@[k],
        decreases p_len - i,
    {
        if s.get_char(i) != p.get_char(i) {
            assert(s@.subrange(0, p@.len() as int)[i as int] != p@[i as int]);
            return false;
        }
        i = i + 1;
    }
    assert(s@.subrange(0, p@.len() as int) =~= p@);
    true
}

} // verus!
