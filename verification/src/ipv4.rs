//! Dotted-decimal formatting of 4-byte IPv4 addresses.

use vstd::prelude::*;
use vstd::string::StringExecFns;

verus! {

/// The decimal digit character for a value below ten.
pub open spec fn dec_digit(n: u8) -> char
    recommends
        n < 10,
{
    if n == 0 {
        '0'
    } else if n == 1 {
        '1'
    } else if n == 2 {
        '2'
    } else if n == 3 {
        '3'
    } else if n == 4 {
        '4'
    } else if n == 5 {
        '5'
    } else if n == 6 {
        '6'
    } else if n == 7 {
        '7'
    } else if n == 8 {
        '8'
    } else {
        '9'
    }
}

/// The unsigned decimal text of one byte, with no leading zeros (a single
/// `0` for the value zero).
pub open spec fn dec_text(n: u8) -> Seq<char> {
    if n < 10 {
        seq![dec_digit(n)]
    } else if n < 100 {
        seq![dec_digit(n / 10), dec_digit(n % 10)]
    } else {
        seq![dec_digit(n / 100), dec_digit((n / 10) % 10), dec_digit(n % 10)]
    }
}

/// The conventional dotted-decimal text of a 4-byte address: the four bytes
/// as unsigned decimal values, joined by literal `.` characters.
pub open spec fn ipv4_text(s: Seq<u8>) -> Seq<char>
    recommends
        s.len() == 4,
{
    dec_text(s[0]) + seq!['.'] + dec_text(s[1]) + seq!['.'] + dec_text(s[2]) + seq!['.'] + dec_text(
        s[3],
    )
}

/// The one-character string for a decimal digit value.
fn digit_str(d: u8) -> (r: &'static str)
    requires
        d < 10,
    ensures
        r@ == seq![dec_digit(d)],
{
    proof {
        reveal_strlit("0");
        reveal_strlit("1");
        reveal_strlit("2");
        reveal_strlit("3");
        reveal_strlit("4");
        reveal_strlit("5");
        reveal_strlit("6");
        reveal_strlit("7");
        reveal_strlit("8");
        reveal_strlit("9");
    }
    let r = if d == 0 {
        "0"
    } else if d == 1 {
        "1"
    } else if d == 2 {
        "2"
    } else if d == 3 {
        "3"
    } else if d == 4 {
        "4"
    } else if d == 5 {
        "5"
    } else if d == 6 {
        "6"
    } else if d == 7 {
        "7"
    } else if d == 8 {
        "8"
    } else {
        "9"
    };
    proof {
        assert(r@ =~= seq![dec_digit(d)]);
    }
    r
}

/// The unsigned decimal text of one byte.
fn octet_str(n: u8) -> (r: String)
    ensures
        r@ == dec_text(n),
{
    let mut s = String::new();
    if n >= 100 {
        s.append(digit_str(n / 100));
    }
    if n >= 10 {
        s.append(digit_str((n / 10) % 10));
    }
    s.append(digit_str(n % 10));
    proof {
        assert(s@ =~= dec_text(n));
    }
    s
}

/// Wrapper to format an IP address.
pub struct IpFormatter<'a>(pub &'a [u8]);

impl<'a> IpFormatter<'a> {
    /// Renders the wrapped bytes in dotted-decimal notation. The wrapped
    /// slice must hold exactly 4 bytes.
    pub fn to_text(&self) -> (r: String)
        requires
            self.0@.len() == 4,
        ensures
            r@ == ipv4_text(self.0@),
    {
        let ip = self.0;
        let mut s = octet_str(ip[0]);
        let dot = ".";
        proof {
            reveal_strlit(".");
            assert(dot@ =~= seq!['.']);
        }
        s.append(dot);
        let b = octet_str(ip[1]);
        s.append(b.as_str());
        s.append(dot);
        let c = octet_str(ip[2]);
        s.append(c.as_str());
        s.append(dot);
        let d = octet_str(ip[3]);
        s.append(d.as_str());
        proof {
            assert(s@ =~= ipv4_text(self.0@));
        }
        s
    }
}

} // verus!
