//! The runtime functions of an image.

use crate::exe::ExeError;
use core::ops::Range;
use vstd::prelude::*;
use vstd::string::*;

verus! {

/// The runtime functions of an image.
pub type Functions = Vec<Function>;

/// One function: the byte range of its code.
#[derive(Debug)]
pub struct Function(pub Range<usize>);

/// The hexadecimal digit of a number below sixteen, in lower case.
pub open spec fn hex_digit(d: nat) -> char {
    if d == 0 {
        '0'
    } else if d == 1 {
        '1'
    } else if d == 2 {
        '2'
    } else if d == 3 {
        '3'
    } else if d == 4 {
        '4'
    } else if d == 5 {
        '5'
    } else if d == 6 {
        '6'
    } else if d == 7 {
        '7'
    } else if d == 8 {
        '8'
    } else if d == 9 {
        '9'
    } else if d == 10 {
        'a'
    } else if d == 11 {
        'b'
    } else if d == 12 {
        'c'
    } else if d == 13 {
        'd'
    } else if d == 14 {
        'e'
    } else {
        'f'
    }
}

/// A number in hexadecimal: lower case, no prefix, no leading zeros.
pub open spec fn hex(n: nat) -> Seq<char>
    decreases n,
{
    if n < 16 {
        seq![hex_digit(n)]
    } else {
        hex(n / 16).push(hex_digit(n % 16))
    }
}

/// The name given to the function at `address`.
pub open spec fn spec_function_name(address: nat) -> Seq<char> {
    "fn_"@ + hex(address)
}

/// One hexadecimal digit as a string.
fn digit_str(d: usize) -> (s: &'static str)
    requires
        d < 16,
    ensures
        s@ == seq![hex_digit(d as nat)],
{
    proof {
        reveal_strlit("0");
        reveal_strlit("1");
        reveal_strlit("2");
        reveal_strlit("3");
        reveal_strlit("4");
        reveal_strlit("5");
        reveal_strlit("6");
        reveal_strlit("7");
        reveal_strlit("8");
        reveal_strlit("9");
        reveal_strlit("a");
        reveal_strlit("b");
        reveal_strlit("c");
        reveal_strlit("d");
        reveal_strlit("e");
        reveal_strlit("f");
    }
    let s = if d == 0 {
        "0"
    } else if d == 1 {
        "1"
    } else if d == 2 {
        "2"
    } else if d == 3 {
        "3"
    } else if d == 4 {
        "4"
    } else if d == 5 {
        "5"
    } else if d == 6 {
        "6"
    } else if d == 7 {
        "7"
    } else if d == 8 {
        "8"
    } else if d == 9 {
        "9"
    } else if d == 10 {
        "a"
    } else if d == 11 {
        "b"
    } else if d == 12 {
        "c"
    } else if d == 13 {
        "d"
    } else if d == 14 {
        "e"
    } else {
        "f"
    };
    proof {
        assert(s@ =~= seq![hex_digit(d as nat)]);
    }
    s
}

/// Appends `n` in hexadecimal to `text`.
fn push_hex(text: &mut String, n: usize)
    ensures
        final(text)@ == old(text)@ + hex(n as nat),
    decreases n,
{
    if n >= 16 {
        push_hex(text, n / 16);
    }
    let ghost before = text@;
    text.append(digit_str(n % 16));
    proof {
        if n >= 16 {
            assert(text@ =~= old(text)@ + hex(n as nat));
        }
    }
}

impl Function {
    /// The name of the function in an image loaded at `image_base`: `fn_`
    /// and the address of its first byte in hexadecimal.
    pub fn name(&self, image_base: usize) -> (r: Result<String, ExeError>)
        ensures
            image_base + self.0.start <= usize::MAX ==> r is Ok && r->Ok_0@ == spec_function_name(
                (image_base + self.0.start) as nat,
            ),
            image_base + self.0.start > usize::MAX ==> r is Err && r->Err_0 == ExeError::Overflow,
    {
        let address = match image_base.checked_add(self.0.start) {
            Some(address) => address,
            None => { return Err(ExeError::Overflow); },
        };
        let mut name = String::from_str("fn_");
        push_hex(&mut name, address);
        Ok(name)
    }
}

} // verus!
