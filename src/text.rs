//! Rendering of instruction text.

use vstd::prelude::*;

use crate::insn::Opcode;

verus! {

/// The lowercase hexadecimal digit of `n`, for `n` in `0..16`.
pub open spec fn hex_char(n: int) -> char {
    seq!['0', '1', '2', '3', '4', '5', '6', '7', '8', '9', 'a', 'b', 'c', 'd', 'e', 'f'][n]
}

/// The last `digits` hexadecimal digits of `v`, most significant first.
pub open spec fn hex_text(v: int, digits: nat) -> Seq<char>
    decreases digits,
{
    if digits == 0 {
        seq![]
    } else {
        hex_text(v / 16, (digits - 1) as nat).push(hex_char(v % 16))
    }
}

/// The text of an instruction: the template with the operand written in as
/// two hex digits (one operand byte) or four (two operand bytes).
pub open spec fn render(o: Opcode, arg: u16) -> Seq<char> {
    if o.arg_len == 0 {
        o.mnemonic_fmt@ + o.mnemonic_tail@
    } else if o.arg_len == 1 {
        o.mnemonic_fmt@ + hex_text(arg as int, 2) + o.mnemonic_tail@
    } else {
        o.mnemonic_fmt@ + hex_text(arg as int, 4) + o.mnemonic_tail@
    }
}

fn hex_digit(n: u16) -> (r: &'static str)
    requires
        n < 16,
    ensures
        r@ == seq![hex_char(n as int)],
{
    if n == 0 {
        proof {
            reveal_strlit("0");
        }
        "0"
    } else if n == 1 {
        proof {
            reveal_strlit("1");
        }
        "1"
    } else if n == 2 {
        proof {
            reveal_strlit("2");
        }
        "2"
    } else if n == 3 {
        proof {
            reveal_strlit("3");
        }
        "3"
    } else if n == 4 {
        proof {
            reveal_strlit("4");
        }
        "4"
    } else if n == 5 {
        proof {
            reveal_strlit("5");
        }
        "5"
    } else if n == 6 {
        proof {
            reveal_strlit("6");
        }
        "6"
    } else if n == 7 {
        proof {
            reveal_strlit("7");
        }
        "7"
    } else if n == 8 {
        proof {
            reveal_strlit("8");
        }
        "8"
    } else if n == 9 {
        proof {
            reveal_strlit("9");
        }
        "9"
    } else if n == 10 {
        proof {
            reveal_strlit("a");
        }
        "a"
    } else if n == 11 {
        proof {
            reveal_strlit("b");
        }
        "b"
    } else if n == 12 {
        proof {
            reveal_strlit("c");
        }
        "c"
    } else if n == 13 {
        proof {
            reveal_strlit("d");
        }
        "d"
    } else if n == 14 {
        proof {
            reveal_strlit("e");
        }
        "e"
    } else {
        proof {
            reveal_strlit("f");
        }
        "f"
    }
}

/// Appends the last `digits` hex digits of `v` to `s`.
fn push_hex(s: &mut String, v: u16, digits: u16)
    requires
        digits <= 4,
    ensures
        final(s)@ == old(s)@ + hex_text(v as int, digits as nat),
    decreases digits,
{
    if digits > 0 {
        push_hex(s, v / 16, digits - 1);
        let d = hex_digit(v % 16);
        s.append(d);
        assert(s@ =~= old(s)@ + hex_text(v as int, digits as nat));
    }
}

/// Renders the mnemonic of `op` with operand `arg`.
pub fn format_mnemonic(op: &Opcode, arg: u16) -> (r: String)
    ensures
        r@ == render(*op, arg),
{
    let mut s = String::from_str(op.mnemonic_fmt);
    if op.arg_len == 1 {
        push_hex(&mut s, arg, 2);
    } else if op.arg_len >= 2 {
        push_hex(&mut s, arg, 4);
    }
    s.append(op.mnemonic_tail);
    s
}

} // verus!
