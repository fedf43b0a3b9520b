//! Terminal rendering: ANSI color escapes and the colored message line.

use vstd::prelude::*;

verus! {

/// The character for a single decimal digit.
pub open spec fn digit_char(d: int) -> char {
    if d == 0 {
        '0'
    } else if d == 1 {
        '1'
    } else if d == 2 {
        '2'
    } else if d == 3 {
        '3'
    } else if d == 4 {
        '4'
    } else if d == 5 {
        '5'
    } else if d == 6 {
        '6'
    } else if d == 7 {
        '7'
    } else if d == 8 {
        '8'
    } else {
        '9'
    }
}

/// The decimal digits of `n`, most significant first, with no leading zeros
/// (a single `'0'` for zero).
pub open spec fn dec_chars(n: int) -> Seq<char>
    decreases n,
{
    if n <= 9 {
        seq![digit_char(n)]
    } else {
        dec_chars(n / 10).push(digit_char(n % 10))
    }
}

/// The opening of a 24-bit ANSI foreground color escape: `ESC [ 3 8 ; 2 ;`.
pub open spec fn color_prefix() -> Seq<char> {
    seq!['\u{1b}', '[', '3', '8', ';', '2', ';']
}

/// The ANSI reset escape: `ESC [ 0 m`.
pub open spec fn color_reset() -> Seq<char> {
    seq!['\u{1b}', '[', '0', 'm']
}

/// The full foreground color escape for the color `(r, g, b)`.
pub open spec fn rgb_chars(r: u8, g: u8, b: u8) -> Seq<char> {
    color_prefix() + dec_chars(r as int) + seq![';'] + dec_chars(g as int) + seq![';'] + dec_chars(
        b as int,
    ) + seq!['m']
}

fn digit_str(d: u8) -> (r: &'static str)
    requires
        d <= 9,
    ensures
        r@ == seq![digit_char(d as int)],
{
    if d == 0 {
        proof {
            reveal_strlit("0");
            assert("0"@ =~= seq![digit_char(0)]);
        }
        "0"
    } else if d == 1 {
        proof {
            reveal_strlit("1");
            assert("1"@ =~= seq![digit_char(1)]);
        }
        "1"
    } else if d == 2 {
        proof {
            reveal_strlit("2");
            assert("2"@ =~= seq![digit_char(2)]);
        }
        "2"
    } else if d == 3 {
        proof {
            reveal_strlit("3");
            assert("3"@ =~= seq![digit_char(3)]);
        }
        "3"
    } else if d == 4 {
        proof {
            reveal_strlit("4");
            assert("4"@ =~= seq![digit_char(4)]);
        }
        "4"
    } else if d == 5 {
        proof {
            reveal_strlit("5");
            assert("5"@ =~= seq![digit_char(5)]);
        }
        "5"
    } else if d == 6 {
        proof {
            reveal_strlit("6");
            assert("6"@ =~= seq![digit_char(6)]);
        }
        "6"
    } else if d == 7 {
        proof {
            reveal_strlit("7");
            assert("7"@ =~= seq![digit_char(7)]);
        }
        "7"
    } else if d == 8 {
        proof {
            reveal_strlit("8");
            assert("8"@ =~= seq![digit_char(8)]);
        }
        "8"
    } else {
        proof {
            reveal_strlit("9");
            assert("9"@ =~= seq![digit_char(9)]);
        }
        "9"
    }
}

fn push_dec_u8(s: &mut String, n: u8)
    ensures
        final(s)@ == old(s)@ + dec_chars(n as int),
{
    let ghost start = s@;
    if n >= 100 {
        s.append(digit_str(n / 100));
    }
    if n >= 10 {
        s.append(digit_str((n / 10) % 10));
    }
    s.append(digit_str(n % 10));
    proof {
        if n >= 100 {
            assert(n / 10 / 10 == n / 100);
            assert(dec_chars(n as int) == dec_chars(n as int / 10).push(
                digit_char(n as int % 10),
            ));
            assert(dec_chars(n as int / 10) == dec_chars(n as int / 100).push(
                digit_char(n as int / 10 % 10),
            ));
            assert(dec_chars(n as int / 100) == seq![digit_char(n as int / 100)]);
            assert(s@ =~= start + dec_chars(n as int));
        } else if n >= 10 {
            assert(dec_chars(n as int) == dec_chars(n as int / 10).push(
                digit_char(n as int % 10),
            ));
            assert(dec_chars(n as int / 10) == seq![digit_char(n as int / 10)]);
            assert(s@ =~= start + dec_chars(n as int));
        } else {
            assert(s@ =~= start + dec_chars(n as int));
        }
    }
}

/// The ANSI escape string that sets the terminal foreground to `(r, g, b)`.
pub fn rgb_string(r: u8, g: u8, b: u8) -> (res: String)
    ensures
        res@ == rgb_chars(r, g, b),
{
    let mut s = String::new();
    s.append("\x1b[38;2;");
    proof {
        reveal_strlit("\x1b[38;2;");
        assert("\x1b[38;2;"@ =~= color_prefix());
    }
    push_dec_u8(&mut s, r);
    s.append(";");
    push_dec_u8(&mut s, g);
    s.append(";");
    push_dec_u8(&mut s, b);
    s.append("m");
    proof {
        reveal_strlit(";");
        reveal_strlit("m");
        assert(";"@ =~= seq![';']);
        assert("m"@ =~= seq!['m']);
        assert(s@ =~= rgb_chars(r, g, b));
    }
    s
}

/// One printed line for an inbound text message: the body wrapped in a pure
/// red foreground escape and a reset, ending in a newline.
pub fn render_line(text: &str) -> (res: String)
    ensures
        res@ == rgb_chars(255, 0, 0) + text@ + color_reset() + seq!['\n'],
{
    let mut s = rgb_string(255, 0, 0);
    s.append(text);
    s.append("\x1b[0m");
    s.append("\n");
    proof {
        reveal_strlit("\x1b[0m");
        reveal_strlit("\n");
        assert("\x1b[0m"@ =~= color_reset());
        assert("\n"@ =~= seq!['\n']);
        assert(s@ =~= rgb_chars(255, 0, 0) + text@ + color_reset() + seq!['\n']);
    }
    s
}

} // verus!
