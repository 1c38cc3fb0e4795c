use vstd::prelude::*;

verus! {

/// An ASCII hexadecimal digit, in either case.
pub open spec fn is_hex_digit(c: char) -> bool {
    ('0' <= c && c <= '9') || ('a' <= c && c <= 'f') || ('A' <= c && c <= 'F')
}

/// The value of a hexadecimal digit (case-insensitive).
pub open spec fn hex_nibble(c: char) -> nat {
    if '0' <= c && c <= '9' {
        (c as nat - '0' as nat) as nat
    } else if 'a' <= c && c <= 'f' {
        (c as nat - 'a' as nat + 10) as nat
    } else {
        (c as nat - 'A' as nat + 10) as nat
    }
}

/// The lower-case hexadecimal digit of a value below 16.
pub open spec fn lower_hex_char(d: nat) -> char {
    if d < 10 {
        ('0' as nat + d) as char
    } else {
        ('a' as nat + d - 10) as char
    }
}

/// Removes one leading `0x` or `0X`, if there is one.
pub open spec fn strip_hex_prefix(s: Seq<char>) -> Seq<char> {
    if s.len() >= 2 && s[0] == '0' && (s[1] == 'x' || s[1] == 'X') {
        s.subrange(2, s.len() as int)
    } else {
        s
    }
}

/// Whether `s` begins with `0x` or `0X`.
pub open spec fn has_hex_prefix(s: Seq<char>) -> bool {
    s.len() >= 2 && s[0] == '0' && (s[1] == 'x' || s[1] == 'X')
}

/// Removes a leading `0x` or `0X` from `raw`, as `str::strip_prefix` would.
pub fn strip_hex_prefix_exec(raw: &str) -> (t: &str)
    ensures
        t@ == strip_hex_prefix(raw@),
{
    let n = raw.unicode_len();
    if n >= 2 && raw.get_char(0) == '0' {
        let c = raw.get_char(1);
        if c == 'x' || c == 'X' {
            return raw.substring_char(2, n);
        }
    }
    raw
}

} // verus!
