//! Text made from bytes and numbers: std's lossy UTF-8 decoding and lower
//! casing, decimal and hexadecimal digits, and substring search.
use vstd::prelude::*;
use vstd::utf8::{decode_utf8, valid_utf8};

verus! {

/// What `String::from_utf8_lossy` makes of `bytes`.
pub uninterp spec fn utf8_lossy(bytes: Seq<u8>) -> Seq<char>;

/// `bytes` as text, each invalid UTF-8 sequence replaced by U+FFFD.
///
/// Calls `String::from_utf8_lossy`. Claimed of it: the result is a function of
/// `bytes` alone, and for valid UTF-8 it is the decoded text, as std's
/// documentation states; what it is for invalid input is left unsaid.
#[verifier::external_body]
pub(crate) fn lossy_string(bytes: &[u8]) -> (r: String)
    ensures
        r@ == utf8_lossy(bytes@),
        valid_utf8(bytes@) ==> r@ == decode_utf8(bytes@),
{
    String::from_utf8_lossy(bytes).into_owned()
}

/// The character of digit `d` (below 16): `0`-`9`, then `A`-`F` in upper
/// case or `a`-`f` in lower case.
pub open spec fn digit_char(d: nat, upper: bool) -> char {
    if d < 10 {
        (('0' as u32) + d) as char
    } else if upper {
        (('A' as u32) + d - 10) as char
    } else {
        (('a' as u32) + d - 10) as char
    }
}

/// The decimal digits of `n`, most significant first, without leading zeros.
pub open spec fn decimal(n: nat) -> Seq<char>
    decreases n,
{
    if n < 10 {
        seq![digit_char(n, true)]
    } else {
        decimal(n / 10).push(digit_char(n % 10, true))
    }
}

/// `#` followed by `n` in decimal: the name of an entry known only by number.
pub fn hash_number(n: u64) -> (r: String)
    ensures
        r@ == seq!['#'] + decimal(n as nat),
{
    proof {
        reveal_strlit("#");
    }
    let mut r = String::from_str("#");
    append_decimal(&mut r, n);
    r
}

/// The upper-case hexadecimal digits of `n`, at least `width` of them, padded
/// with leading zeros.
pub open spec fn hex_upper(n: nat, width: nat) -> Seq<char>
    decreases width, n,
{
    let c = digit_char(n % 16, true);
    if n < 16 && width <= 1 {
        seq![c]
    } else {
        hex_upper(n / 16, if width > 0 { (width - 1) as nat } else { 0 }).push(c)
    }
}

/// The text of a PDB signature: GUID bytes 0..3 padded to eight, four, four
/// and two hex digits, bytes 3..11 to two digits each, then the age.
pub open spec fn pdb_signature_text(guid: Seq<u8>, age: u32) -> Seq<char> {
    hex_upper(guid[0] as nat, 8) + hex_upper(guid[1] as nat, 4) + hex_upper(guid[2] as nat, 4)
        + hex_upper(guid[3] as nat, 2) + hex_upper(guid[4] as nat, 2) + hex_upper(guid[5] as nat, 2)
        + hex_upper(guid[6] as nat, 2) + hex_upper(guid[7] as nat, 2) + hex_upper(guid[8] as nat, 2)
        + hex_upper(guid[9] as nat, 2) + hex_upper(guid[10] as nat, 2) + hex_upper(age as nat, 1)
}

/// The PDB signature text of a GUID and an age.
pub fn pdb_signature(guid: [u8; 16], age: u32) -> (r: String)
    ensures
        r@ == pdb_signature_text(guid@, age),
{
    let mut r = String::new();
    append_hex_upper(&mut r, guid[0] as u64, 8);
    append_hex_upper(&mut r, guid[1] as u64, 4);
    append_hex_upper(&mut r, guid[2] as u64, 4);
    append_hex_upper(&mut r, guid[3] as u64, 2);
    append_hex_upper(&mut r, guid[4] as u64, 2);
    append_hex_upper(&mut r, guid[5] as u64, 2);
    append_hex_upper(&mut r, guid[6] as u64, 2);
    append_hex_upper(&mut r, guid[7] as u64, 2);
    append_hex_upper(&mut r, guid[8] as u64, 2);
    append_hex_upper(&mut r, guid[9] as u64, 2);
    append_hex_upper(&mut r, guid[10] as u64, 2);
    append_hex_upper(&mut r, age as u64, 1);
    assert(r@ =~= pdb_signature_text(guid@, age));
    r
}

/// What `str::to_lowercase` makes of `s`.
pub uninterp spec fn lowercase_of(s: Seq<char>) -> Seq<char>;

/// `s` in lower case, by Unicode's rules.
///
/// Calls `str::to_lowercase`. Claimed of it: the result is a function of `s`
/// alone; which characters it maps to which is left unsaid.
#[verifier::external_body]
pub(crate) fn lowercase(s: &str) -> (r: String)
    ensures
        r@ == lowercase_of(s@),
{
    s.to_lowercase()
}

/// `needle` occurs in `hay` as a run of consecutive characters.
pub open spec fn contains_seq(hay: Seq<char>, needle: Seq<char>) -> bool {
    exists|i: int| 0 <= i && i + needle.len() <= hay.len() && #[trigger] hay.subrange(i, i + needle.len()) == needle
}

/// The characters of `s`, in order.
pub fn chars_of(s: &str) -> (v: Vec<char>)
    ensures
        v@ == s@,
{
    let mut v: Vec<char> = Vec::new();
    let ghost all = s@;
    for c in it: s.chars()
        invariant
            it.seq() == all,
            v@ == all.take(it.index() as int),
    {
        v.push(c);
        proof {
            assert(v@ =~= all.take(it.index() + 1));
        }
    }
    assert(all.take(all.len() as int) =~= all);
    v
}

/// Whether `needle` matches `hay` at position `at`.
fn matches_at(hay: &Vec<char>, needle: &Vec<char>, at: usize) -> (r: bool)
    requires
        at + needle@.len() <= hay@.len(),
    ensures
        r == (hay@.subrange(at as int, at + needle@.len()) == needle@),
{
    let hl = hay.len();
    let mut j: usize = 0;
    while j < needle.len()
        invariant
            hl == hay@.len(),
            at + needle@.len() <= hay@.len(),
            j <= needle@.len(),
            forall|t: int| 0 <= t < j ==> hay@[at + t] == needle@[t],
        decreases needle@.len() - j,
    {
        if hay[at + j] != needle[j] {
            assert(hay@.subrange(at as int, at + needle@.len())[j as int] != needle@[j as int]);
            return false;
        }
        j += 1;
    }
    assert(hay@.subrange(at as int, at + needle@.len()) =~= needle@);
    true
}

/// Whether `needle` occurs in `hay`.
pub fn contains_text(hay: &str, needle: &str) -> (r: bool)
    ensures
        r == contains_seq(hay@, needle@),
{
    let h = chars_of(hay);
    let n = chars_of(needle);
    if n.len() > h.len() {
        return false;
    }
    let last = h.len() - n.len();
    let mut at: usize = 0;
    loop
        invariant
            last == h@.len() - n@.len(),
            h@ == hay@,
            n@ == needle@,
            n@.len() <= h@.len(),
            at <= last,
            forall|i: int| 0 <= i < at ==> #[trigger] h@.subrange(i, i + n@.len()) != n@,
        decreases last - at,
    {
        if matches_at(&h, &n, at) {
            return true;
        }
        if at == last {
            return false;
        }
        at += 1;
    }
}

/// The lower-case hexadecimal digits of `n`, without leading zeros.
pub open spec fn hex_lower(n: nat) -> Seq<char>
    decreases n,
{
    let c = digit_char(n % 16, false);
    if n < 16 {
        seq![c]
    } else {
        hex_lower(n / 16).push(c)
    }
}

/// The line that describes a PE image whose image base is `base`.
pub fn pe_info_line(base: u64) -> (r: String)
    ensures
        r@ == "PE File Info (Base: 0x"@ + hex_lower(base as nat) + ")\n"@,
{
    let mut r = String::from_str("PE File Info (Base: 0x");
    append_hex_lower(&mut r, base);
    r.append(")\n");
    r
}

/// The one-character text of digit `d` (below 16).
fn digit_text(d: u64, upper: bool) -> (t: &'static str)
    requires
        d < 16,
    ensures
        t@ == seq![digit_char(d as nat, upper)],
{
    if d == 0 {
        proof {
            reveal_strlit("0");
        }
        "0"
    } else if d == 1 {
        proof {
            reveal_strlit("1");
        }
        "1"
    } else if d == 2 {
        proof {
            reveal_strlit("2");
        }
        "2"
    } else if d == 3 {
        proof {
            reveal_strlit("3");
        }
        "3"
    } else if d == 4 {
        proof {
            reveal_strlit("4");
        }
        "4"
    } else if d == 5 {
        proof {
            reveal_strlit("5");
        }
        "5"
    } else if d == 6 {
        proof {
            reveal_strlit("6");
        }
        "6"
    } else if d == 7 {
        proof {
            reveal_strlit("7");
        }
        "7"
    } else if d == 8 {
        proof {
            reveal_strlit("8");
        }
        "8"
    } else if d == 9 {
        proof {
            reveal_strlit("9");
        }
        "9"
    } else if d == 10 {
        if upper {
            proof {
                reveal_strlit("A");
            }
            "A"
        } else {
            proof {
                reveal_strlit("a");
            }
            "a"
        }
    } else if d == 11 {
        if upper {
            proof {
                reveal_strlit("B");
            }
            "B"
        } else {
            proof {
                reveal_strlit("b");
            }
            "b"
        }
    } else if d == 12 {
        if upper {
            proof {
                reveal_strlit("C");
            }
            "C"
        } else {
            proof {
                reveal_strlit("c");
            }
            "c"
        }
    } else if d == 13 {
        if upper {
            proof {
                reveal_strlit("D");
            }
            "D"
        } else {
            proof {
                reveal_strlit("d");
            }
            "d"
        }
    } else if d == 14 {
        if upper {
            proof {
                reveal_strlit("E");
            }
            "E"
        } else {
            proof {
                reveal_strlit("e");
            }
            "e"
        }
    } else {
        if upper {
            proof {
                reveal_strlit("F");
            }
            "F"
        } else {
            proof {
                reveal_strlit("f");
            }
            "f"
        }
    }
}

/// Appends the decimal digits of `n` to `s`.
fn append_decimal(s: &mut String, n: u64)
    ensures
        final(s)@ == old(s)@ + decimal(n as nat),
    decreases n,
{
    if n >= 10 {
        append_decimal(s, n / 10);
    }
    s.append(digit_text(n % 10, true));
    assert(final(s)@ =~= old(s)@ + decimal(n as nat));
}

/// Appends the upper-case hexadecimal digits of `n`, padded with zeros to at
/// least `width` digits, to `s`.
fn append_hex_upper(s: &mut String, n: u64, width: u64)
    ensures
        final(s)@ == old(s)@ + hex_upper(n as nat, width as nat),
    decreases width, n,
{
    if !(n < 16 && width <= 1) {
        append_hex_upper(s, n / 16, if width > 0 { width - 1 } else { 0 });
    }
    s.append(digit_text(n % 16, true));
}

/// Appends the lower-case hexadecimal digits of `n` to `s`.
fn append_hex_lower(s: &mut String, n: u64)
    ensures
        final(s)@ == old(s)@ + hex_lower(n as nat),
    decreases n,
{
    if n >= 16 {
        append_hex_lower(s, n / 16);
    }
    s.append(digit_text(n % 16, false));
}

} // verus!
