//! Small verified helpers on strings: cloning optional strings, decimal
//! rendering of integers, and ASCII case-insensitive comparison.
use vstd::prelude::*;
use vstd::string::*;

verus! {

/// View of an optional string as an optional sequence of characters.
pub open spec fn opt_str_view(x: Option<String>) -> Option<Seq<char>> {
    match x {
        Some(s) => Some(s@),
        None => None,
    }
}

/// Clones an optional string, preserving its view.
pub fn clone_opt_string(x: &Option<String>) -> (r: Option<String>)
    ensures
        opt_str_view(r) == opt_str_view(*x),
{
    match x {
        Some(s) => Some(s.clone()),
        None => None,
    }
}

/// The character for a single decimal digit.
pub open spec fn digit_char(d: nat) -> char {
    if d == 0 {
        '0'
    } else if d == 1 {
        '1'
    } else if d == 2 {
        '2'
    } else if d == 3 {
        '3'
    } else if d == 4 {
        '4'
    } else if d == 5 {
        '5'
    } else if d == 6 {
        '6'
    } else if d == 7 {
        '7'
    } else if d == 8 {
        '8'
    } else {
        '9'
    }
}

/// The usual decimal rendering of a natural number, most significant digit
/// first, with no leading zeros (except for zero itself).
pub open spec fn dec_rep(n: nat) -> Seq<char>
    decreases n,
{
    if n < 10 {
        seq![digit_char(n)]
    } else {
        dec_rep(n / 10) + seq![digit_char(n % 10)]
    }
}

fn digit_str(d: u64) -> (r: &'static str)
    requires
        d < 10,
    ensures
        r@ == seq![digit_char(d as nat)],
{
    proof {
        reveal_strlit("0");
        reveal_strlit("1");
        reveal_strlit("2");
        reveal_strlit("3");
        reveal_strlit("4");
        reveal_strlit("5");
        reveal_strlit("6");
        reveal_strlit("7");
        reveal_strlit("8");
        reveal_strlit("9");
    }
    let r = match d {
        0 => "0",
        1 => "1",
        2 => "2",
        3 => "3",
        4 => "4",
        5 => "5",
        6 => "6",
        7 => "7",
        8 => "8",
        _ => "9",
    };
    proof {
        assert(r@ =~= seq![digit_char(d as nat)]);
    }
    r
}

/// Renders an integer in decimal.
pub fn dec_u64(n: u64) -> (r: String)
    ensures
        r@ == dec_rep(n as nat),
    decreases n,
{
    if n < 10 {
        digit_str(n).to_owned()
    } else {
        let prefix = dec_u64(n / 10);
        prefix.concat(digit_str(n % 10))
    }
}

/// ASCII lowercase of one character.
pub open spec fn lower_char(c: char) -> char {
    if 'A' <= c && c <= 'Z' {
        ((c as int) + 32) as char
    } else {
        c
    }
}

/// ASCII lowercase of a character sequence.
pub open spec fn lower_seq(s: Seq<char>) -> Seq<char> {
    s.map_values(|c: char| lower_char(c))
}

fn char_eq_ignore_case(a: char, b: char) -> (r: bool)
    ensures
        r == (lower_char(a) == lower_char(b)),
{
    let au: u32 = a as u32;
    let bu: u32 = b as u32;
    let la: u32 = if 'A' <= a && a <= 'Z' {
        au + 32
    } else {
        au
    };
    let lb: u32 = if 'A' <= b && b <= 'Z' {
        bu + 32
    } else {
        bu
    };
    la == lb
}

/// Compares two strings for equality up to ASCII case.
pub fn eq_ignore_ascii_case(a: &str, b: &str) -> (r: bool)
    ensures
        r == (lower_seq(a@) == lower_seq(b@)),
{
    let alen = a.unicode_len();
    let blen = b.unicode_len();
    if alen != blen {
        assert(lower_seq(a@).len() != lower_seq(b@).len());
        return false;
    }
    let mut i: usize = 0;
    while i < alen
        invariant
            alen == a@.len(),
            blen == b@.len(),
            alen == blen,
            i <= alen,
            forall|j: int| 0 <= j < i ==> lower_char(a@[j]) == lower_char(b@[j]),
        decreases alen - i,
    {
        let ca = a.get_char(i);
        let cb = b.get_char(i);
        if !char_eq_ignore_case(ca, cb) {
            assert(lower_seq(a@)[i as int] != lower_seq(b@)[i as int]);
            return false;
        }
        i += 1;
    }
    proof {
        assert(lower_seq(a@) =~= lower_seq(b@));
    }
    true
}

/// Compares two string slices for exact equality of their character views.
pub fn str_eq(a: &str, b: &str) -> (r: bool)
    ensures
        r == (a@ == b@),
{
    let owned_a = a.to_owned();
    let owned_b = b.to_owned();
    owned_a == owned_b
}

/// Compares a string with an optional string.
pub fn opt_str_is(x: &Option<String>, v: &str) -> (r: bool)
    ensures
        r == (opt_str_view(*x) == Some(v@)),
{
    match x {
        Some(s) => str_eq(s.as_str(), v),
        None => false,
    }
}

} // verus!
verus! {

/// The strings joined with a separator between consecutive elements.
pub open spec fn spec_join(s: Seq<Seq<char>>, sep: Seq<char>) -> Seq<char>
    decreases s.len(),
{
    if s.len() == 0 {
        Seq::empty()
    } else if s.len() == 1 {
        s[0]
    } else {
        spec_join(s.drop_last(), sep) + sep + s.last()
    }
}

/// Joins strings with a separator.
pub fn join_strings(v: &Vec<String>, sep: &str) -> (r: String)
    ensures
        r@ == spec_join(crate::affinity::strings_view(v@), sep@),
{
    let ghost views = crate::affinity::strings_view(v@);
    let mut out = String::new();
    let mut i: usize = 0;
    while i < v.len()
        invariant
            i <= views.len(),
            views == crate::affinity::strings_view(v@),
            out@ == spec_join(views.subrange(0, i as int), sep@),
        decreases views.len() - i,
    {
        let ghost prefix = views.subrange(0, i as int);
        let ghost prefix1 = views.subrange(0, i + 1);
        if i > 0 {
            out.append(sep);
        }
        out.append(v[i].as_str());
        proof {
            assert(prefix1.drop_last() =~= prefix);
            assert(prefix1.last() == views[i as int]);
            if i == 0 {
                assert(out@ =~= spec_join(prefix1, sep@));
            }
        }
        i += 1;
    }
    proof {
        assert(views.subrange(0, views.len() as int) =~= views);
    }
    out
}

} // verus!
