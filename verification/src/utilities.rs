//! Verified text helpers: decimal rendering, countdown display, space
//! padding, whitespace trimming and placeholder substitution.

use vstd::prelude::*;

verus! {

/// The decimal digit character for a value below ten.
pub open spec fn digit_char_spec(d: int) -> char {
    if d == 0 {
        '0'
    } else if d == 1 {
        '1'
    } else if d == 2 {
        '2'
    } else if d == 3 {
        '3'
    } else if d == 4 {
        '4'
    } else if d == 5 {
        '5'
    } else if d == 6 {
        '6'
    } else if d == 7 {
        '7'
    } else if d == 8 {
        '8'
    } else {
        '9'
    }
}

/// The decimal rendering of a non-negative integer, most significant
/// digit first, with no leading zeros (zero itself is "0").
pub open spec fn dec_spec(n: int) -> Seq<char>
    recommends
        n >= 0,
    decreases n,
{
    if n <= 9 {
        seq![digit_char_spec(n)]
    } else {
        dec_spec(n / 10).push(digit_char_spec(n % 10))
    }
}

fn digit_str(d: u32) -> (r: &'static str)
    requires
        d < 10,
    ensures
        r@ == seq![digit_char_spec(d as int)],
{
    proof {
        reveal_strlit("0");
        reveal_strlit("1");
        reveal_strlit("2");
        reveal_strlit("3");
        reveal_strlit("4");
        reveal_strlit("5");
        reveal_strlit("6");
        reveal_strlit("7");
        reveal_strlit("8");
        reveal_strlit("9");
    }
    let r = if d == 0 {
        "0"
    } else if d == 1 {
        "1"
    } else if d == 2 {
        "2"
    } else if d == 3 {
        "3"
    } else if d == 4 {
        "4"
    } else if d == 5 {
        "5"
    } else if d == 6 {
        "6"
    } else if d == 7 {
        "7"
    } else if d == 8 {
        "8"
    } else {
        "9"
    };
    proof {
        assert(r@ =~= seq![digit_char_spec(d as int)]);
    }
    r
}

/// Renders a number in decimal.
pub fn u32_to_dec(n: u32) -> (r: String)
    ensures
        r@ == dec_spec(n as int),
    decreases n,
{
    if n < 10 {
        let d = digit_str(n);
        String::from_str(d)
    } else {
        let mut s = u32_to_dec(n / 10);
        let d = digit_str(n % 10);
        s.append(d);
        proof {
            assert(s@ =~= dec_spec((n / 10) as int).push(digit_char_spec((n % 10) as int)));
        }
        s
    }
}

/// The countdown display for a time in tenths of a second: the whole
/// seconds zero-padded to two digits, a dot, and the tenths digit.
pub open spec fn time_display_spec(tenths: int) -> Seq<char>
    recommends
        tenths >= 0,
{
    (if tenths / 10 <= 9 {
        seq!['0']
    } else {
        Seq::<char>::empty()
    }) + dec_spec(tenths / 10) + seq!['.'] + seq![digit_char_spec(tenths % 10)]
}

/// Formats a countdown, given in tenths of a second, as seconds and tenths,
/// e.g. 101 tenths as "10.1" and 53 tenths as "05.3".
pub fn time_format_to_s_m(tenths: u32) -> (r: String)
    ensures
        r@ == time_display_spec(tenths as int),
{
    proof {
        reveal_strlit("0");
        reveal_strlit(".");
    }
    let secs = tenths / 10;
    let mut s = String::new();
    if secs <= 9 {
        s.append("0");
    }
    let ds = u32_to_dec(secs);
    s.append(ds.as_str());
    s.append(".");
    let td = digit_str(tenths % 10);
    s.append(td);
    proof {
        assert(s@ =~= time_display_spec(tenths as int));
    }
    s
}

/// A run of space characters.
pub open spec fn spaces_spec(n: int) -> Seq<char>
    decreases n,
{
    if n <= 0 {
        Seq::<char>::empty()
    } else {
        spaces_spec(n - 1).push(' ')
    }
}

/// Builds a run of spaces.
pub fn spaces(n: usize) -> (r: String)
    ensures
        r@ == spaces_spec(n as int),
{
    let mut s = String::new();
    proof {
        assert(s@ =~= spaces_spec(0));
    }
    let mut i: usize = 0;
    while i < n
        invariant
            i <= n,
            s@ == spaces_spec(i as int),
        decreases n - i,
    {
        proof {
            reveal_strlit(" ");
        }
        s.append(" ");
        i = i + 1;
        proof {
            assert(s@ =~= spaces_spec(i as int));
        }
    }
    s
}

/// Text centred in a field of the given width: the spare width is split,
/// with the extra space, if odd, on the right. Wider text is unchanged.
pub open spec fn pad_center_spec(s: Seq<char>, w: int) -> Seq<char> {
    if s.len() >= w {
        s
    } else {
        spaces_spec((w - s.len()) / 2) + s + spaces_spec(w - s.len() - (w - s.len()) / 2)
    }
}

/// Text right-aligned in a field of the given width. Wider text is unchanged.
pub open spec fn pad_left_spec(s: Seq<char>, w: int) -> Seq<char> {
    if s.len() >= w {
        s
    } else {
        spaces_spec(w - s.len()) + s
    }
}

/// Centres text in a field of the given width.
pub fn pad_center(s: &str, w: usize) -> (r: String)
    ensures
        r@ == pad_center_spec(s@, w as int),
{
    let n = s.unicode_len();
    if n >= w {
        String::from_str(s)
    } else {
        let left = (w - n) / 2;
        let mut out = spaces(left);
        out.append(s);
        let right = spaces(w - n - left);
        out.append(right.as_str());
        out
    }
}

/// Right-aligns text in a field of the given width.
pub fn pad_left(s: &str, w: usize) -> (r: String)
    ensures
        r@ == pad_left_spec(s@, w as int),
{
    let n = s.unicode_len();
    if n >= w {
        String::from_str(s)
    } else {
        let mut out = spaces(w - n);
        out.append(s);
        out
    }
}

/// Whether a character has the Unicode white-space property, the set that
/// str::trim strips from either end.
pub open spec fn is_space_char_spec(c: char) -> bool {
    let u = c as u32;
    (0x9 <= u && u <= 0xd) || u == 0x20 || u == 0x85 || u == 0xa0 || u == 0x1680 || (0x2000 <= u
        && u <= 0x200a) || u == 0x2028 || u == 0x2029 || u == 0x202f || u == 0x205f || u == 0x3000
}

/// Decides whether a character is Unicode white space.
pub fn is_space_char(c: char) -> (r: bool)
    ensures
        r == is_space_char_spec(c),
{
    let u = c as u32;
    (0x9 <= u && u <= 0xd) || u == 0x20 || u == 0x85 || u == 0xa0 || u == 0x1680 || (0x2000 <= u
        && u <= 0x200a) || u == 0x2028 || u == 0x2029 || u == 0x202f || u == 0x205f || u == 0x3000
}

/// Text with its leading white space removed.
pub open spec fn trim_start_spec(s: Seq<char>) -> Seq<char>
    decreases s.len(),
{
    if s.len() > 0 && is_space_char_spec(s[0]) {
        trim_start_spec(s.skip(1))
    } else {
        s
    }
}

/// Text with its trailing white space removed.
pub open spec fn trim_end_spec(s: Seq<char>) -> Seq<char>
    decreases s.len(),
{
    if s.len() > 0 && is_space_char_spec(s[s.len() - 1]) {
        trim_end_spec(s.take(s.len() - 1))
    } else {
        s
    }
}

/// Text with white space removed from both ends, as str::trim leaves it.
pub open spec fn trim_spec(s: Seq<char>) -> Seq<char> {
    trim_end_spec(trim_start_spec(s))
}

/// Removes white space from both ends of the text.
pub fn trim_str(s: &str) -> (r: String)
    ensures
        r@ == trim_spec(s@),
{
    let n = s.unicode_len();
    let mut a: usize = 0;
    proof {
        assert(s@.skip(0) =~= s@);
    }
    while a < n && is_space_char(s.get_char(a))
        invariant
            a <= n,
            n == s@.len(),
            trim_start_spec(s@) == trim_start_spec(s@.skip(a as int)),
        decreases n - a,
    {
        proof {
            assert(s@.skip(a as int)[0] == s@[a as int]);
            assert(s@.skip(a as int).skip(1) =~= s@.skip(a as int + 1));
            assert(trim_start_spec(s@.skip(a as int)) == trim_start_spec(
                s@.skip(a as int).skip(1),
            ));
        }
        a = a + 1;
    }
    proof {
        if a == n {
            assert(s@.skip(a as int) =~= Seq::<char>::empty());
        } else {
            assert(s@.skip(a as int)[0] == s@[a as int]);
        }
        assert(trim_start_spec(s@) == s@.skip(a as int));
    }
    let mut b: usize = n;
    proof {
        assert(s@.skip(a as int).take(n - a as int) =~= s@.skip(a as int));
    }
    while b > a && is_space_char(s.get_char(b - 1))
        invariant
            a <= b <= n,
            n == s@.len(),
            trim_end_spec(s@.skip(a as int)) == trim_end_spec(
                s@.skip(a as int).take(b - a as int),
            ),
        decreases b,
    {
        proof {
            assert(s@.skip(a as int).take(b - a as int).take(b - 1 - a as int) =~= s@.skip(
                a as int,
            ).take(b - 1 - a as int));
            assert(s@.skip(a as int).take(b - a as int)[b - 1 - a as int] == s@[b - 1]);
            assert(trim_end_spec(s@.skip(a as int).take(b - a as int)) == trim_end_spec(
                s@.skip(a as int).take(b - 1 - a as int),
            ));
        }
        b = b - 1;
    }
    proof {
        if b > a {
            assert(s@.skip(a as int).take(b - a as int)[b - 1 - a as int] == s@[b - 1]);
        }
        assert(trim_end_spec(s@.skip(a as int).take(b - a as int)) == s@.skip(a as int).take(
            b - a as int,
        ));
        assert(s@.subrange(a as int, b as int) =~= s@.skip(a as int).take(b - a as int));
    }
    let sub = s.substring_char(a, b);
    String::from_str(sub)
}

/// The text with every non-overlapping occurrence of a non-empty pattern,
/// scanned left to right, replaced, as str::replace leaves it.
pub open spec fn replace_spec(s: Seq<char>, pat: Seq<char>, rep: Seq<char>) -> Seq<char>
    decreases s.len(),
{
    if pat.len() == 0 || s.len() < pat.len() {
        s
    } else if s.take(pat.len() as int) == pat {
        rep + replace_spec(s.skip(pat.len() as int), pat, rep)
    } else {
        seq![s[0]] + replace_spec(s.skip(1), pat, rep)
    }
}

fn matches_at(s: &str, i: usize, pat: &str) -> (r: bool)
    requires
        i + pat@.len() <= s@.len(),
    ensures
        r == (s@.subrange(i as int, i + pat@.len()) == pat@),
{
    let n = s.unicode_len();
    let m = pat.unicode_len();
    let mut j: usize = 0;
    while j < m
        invariant
            j <= m,
            m == pat@.len(),
            n == s@.len(),
            i + m <= n,
            forall|k: int| 0 <= k < j ==> s@[i + k] == pat@[k],
        decreases m - j,
    {
        if s.get_char(i + j) != pat.get_char(j) {
            proof {
                assert(s@.subrange(i as int, i + pat@.len())[j as int] == s@[i + j]);
            }
            return false;
        }
        j = j + 1;
    }
    proof {
        assert(s@.subrange(i as int, i + pat@.len()) =~= pat@);
    }
    true
}

/// Replaces every occurrence of a non-empty pattern in the text.
pub fn replace_str(s: &str, pat: &str, rep: &str) -> (r: String)
    requires
        pat@.len() >= 1,
    ensures
        r@ == replace_spec(s@, pat@, rep@),
{
    let n = s.unicode_len();
    let m = pat.unicode_len();
    let mut out = String::new();
    let mut i: usize = 0;
    proof {
        assert(s@.skip(0) =~= s@);
        assert(out@ + replace_spec(s@, pat@, rep@) =~= replace_spec(s@, pat@, rep@));
    }
    while i < n
        invariant
            i <= n,
            n == s@.len(),
            m == pat@.len(),
            m >= 1,
            out@ + replace_spec(s@.skip(i as int), pat@, rep@) == replace_spec(s@, pat@, rep@),
        decreases n - i,
    {
        if m <= n - i && matches_at(s, i, pat) {
            proof {
                assert(s@.skip(i as int).take(m as int) =~= s@.subrange(i as int, i + m));
                assert(s@.skip(i as int).skip(m as int) =~= s@.skip(i + m as int));
                assert((out@ + rep@) + replace_spec(s@.skip(i + m as int), pat@, rep@) =~= out@ + (
                rep@ + replace_spec(s@.skip(i + m as int), pat@, rep@)));
            }
            out.append(rep);
            i = i + m;
        } else {
            proof {
                if m <= n - i {
                    assert(s@.skip(i as int).take(m as int) =~= s@.subrange(i as int, i + m));
                }
                assert(s@.skip(i as int).skip(1) =~= s@.skip(i as int + 1));
                assert(s@.subrange(i as int, i as int + 1) =~= seq![s@.skip(i as int)[0]]);
                assert((out@ + seq![s@.skip(i as int)[0]]) + replace_spec(
                    s@.skip(i as int + 1),
                    pat@,
                    rep@,
                ) =~= out@ + (seq![s@.skip(i as int)[0]] + replace_spec(
                    s@.skip(i as int + 1),
                    pat@,
                    rep@,
                )));
                if s@.skip(i as int).len() < m {
                    assert(s@.skip(i as int) =~= seq![s@.skip(i as int)[0]] + s@.skip(i as int + 1));
                }
            }
            let c = s.substring_char(i, i + 1);
            out.append(c);
            i = i + 1;
        }
    }
    proof {
        assert(s@.skip(n as int) =~= Seq::<char>::empty());
        assert(out@ + Seq::<char>::empty() =~= out@);
    }
    out
}

} // verus!
