//! String utilities: decimal rendering of integers, equality, splitting,
//! trimming and joining, each proved against a spec-level counterpart on
//! `Seq<char>`.

use vstd::prelude::*;

verus! {

/// The character for a single decimal digit value.
pub open spec fn digit_char(d: int) -> char {
    if d == 0 {
        '0'
    } else if d == 1 {
        '1'
    } else if d == 2 {
        '2'
    } else if d == 3 {
        '3'
    } else if d == 4 {
        '4'
    } else if d == 5 {
        '5'
    } else if d == 6 {
        '6'
    } else if d == 7 {
        '7'
    } else if d == 8 {
        '8'
    } else {
        '9'
    }
}

/// Decimal rendering of a non-negative integer, most significant digit first.
pub open spec fn dec_str(n: int) -> Seq<char>
    decreases n,
{
    if n < 10 {
        seq![digit_char(n)]
    } else {
        dec_str(n / 10) + seq![digit_char(n % 10)]
    }
}

fn digit_to_str(d: u64) -> (s: &'static str)
    requires
        d < 10,
    ensures
        s@ == seq![digit_char(d as int)],
{
    proof {
        reveal_strlit("0");
        reveal_strlit("1");
        reveal_strlit("2");
        reveal_strlit("3");
        reveal_strlit("4");
        reveal_strlit("5");
        reveal_strlit("6");
        reveal_strlit("7");
        reveal_strlit("8");
        reveal_strlit("9");
    }
    match d {
        0 => "0",
        1 => "1",
        2 => "2",
        3 => "3",
        4 => "4",
        5 => "5",
        6 => "6",
        7 => "7",
        8 => "8",
        _ => "9",
    }
}

/// Renders a non-negative integer in decimal.
pub fn u64_to_string(n: u64) -> (s: String)
    ensures
        s@ == dec_str(n as int),
    decreases n,
{
    if n < 10 {
        String::from_str(digit_to_str(n))
    } else {
        let mut s = u64_to_string(n / 10);
        s.append(digit_to_str(n % 10));
        s
    }
}

/// Decimal rendering of an integer, with a leading minus sign when negative.
pub open spec fn int_str(n: int) -> Seq<char> {
    if n < 0 {
        seq!['-'] + dec_str(-n)
    } else {
        dec_str(n)
    }
}

/// Renders a signed integer in decimal.
pub fn i32_to_string(n: i32) -> (s: String)
    ensures
        s@ == int_str(n as int),
{
    if n < 0 {
        let mag: u64 = (-(n as i64)) as u64;
        let mut s = String::from_str("-");
        proof {
            reveal_strlit("-");
            assert(s@ =~= seq!['-']);
        }
        s.append(u64_to_string(mag).as_str());
        s
    } else {
        u64_to_string(n as u64)
    }
}

/// Whether two string slices hold the same characters.
pub fn str_eq(a: &str, b: &str) -> (r: bool)
    ensures
        r == (a@ == b@),
{
    let alen = a.unicode_len();
    let blen = b.unicode_len();
    if alen != blen {
        return false;
    }
    let mut i: usize = 0;
    while i < alen
        invariant
            alen == a@.len(),
            blen == b@.len(),
            alen == blen,
            i <= alen,
            forall|j: int| 0 <= j < i ==> a@[j] == b@[j],
        decreases alen - i,
    {
        if a.get_char(i) != b.get_char(i) {
            return false;
        }
        i += 1;
    }
    proof {
        assert(a@ =~= b@);
    }
    true
}

/// Index of the first occurrence of `c` in `s`, or `-1` when absent.
pub open spec fn find_char(s: Seq<char>, c: char) -> int
    decreases s.len(),
{
    if s.len() == 0 {
        -1
    } else if s[0] == c {
        0
    } else if find_char(s.skip(1), c) < 0 {
        -1
    } else {
        1 + find_char(s.skip(1), c)
    }
}

pub proof fn lemma_find_char(s: Seq<char>, c: char)
    ensures
        find_char(s, c) == -1 ==> forall|i: int| 0 <= i < s.len() ==> s[i] != c,
        find_char(s, c) >= 0 ==> 0 <= find_char(s, c) < s.len() && s[find_char(s, c)] == c
            && forall|i: int| 0 <= i < find_char(s, c) ==> s[i] != c,
    decreases s.len(),
{
    if s.len() > 0 && s[0] != c {
        lemma_find_char(s.skip(1), c);
        let fs = find_char(s.skip(1), c);
        if fs < 0 {
            assert forall|i: int| 0 <= i < s.len() implies s[i] != c by {
                if i > 0 {
                    assert(s.skip(1)[i - 1] == s[i]);
                }
            }
        } else {
            assert(s[1 + fs] == s.skip(1)[fs]);
            assert forall|i: int| 0 <= i < 1 + fs implies s[i] != c by {
                if i > 0 {
                    assert(s.skip(1)[i - 1] == s[i]);
                }
            }
        }
    }
}

/// Finds the first occurrence of `c` in `s`.
pub fn find_char_exec(s: &str, c: char) -> (r: Option<usize>)
    ensures
        r matches Some(i) ==> i == find_char(s@, c),
        r is None ==> find_char(s@, c) == -1,
{
    let len = s.unicode_len();
    let mut i: usize = 0;
    while i < len
        invariant
            len == s@.len(),
            i <= len,
            forall|j: int| 0 <= j < i ==> s@[j] != c,
        decreases len - i,
    {
        if s.get_char(i) == c {
            proof {
                lemma_find_char(s@, c);
            }
            return Some(i);
        }
        i += 1;
    }
    proof {
        lemma_find_char(s@, c);
    }
    None
}

/// Splits `s` at every occurrence of `sep`; a string without `sep` yields
/// one part, and adjacent separators yield empty parts.
pub open spec fn split_on(s: Seq<char>, sep: char) -> Seq<Seq<char>>
    decreases s.len(),
{
    let i = find_char(s, sep);
    if 0 <= i < s.len() {
        seq![s.take(i)] + split_on(s.skip(i + 1), sep)
    } else {
        seq![s]
    }
}

/// Splits a string slice on a separator character.
pub fn split_char(s: &str, sep: char) -> (parts: Vec<String>)
    ensures
        parts@.map_values(|p: String| p@) == split_on(s@, sep),
        parts@.len() == split_on(s@, sep).len(),
    decreases s@.len(),
{
    let len = s.unicode_len();
    match find_char_exec(s, sep) {
        None => {
            let mut parts: Vec<String> = Vec::new();
            parts.push(String::from_str(s));
            proof {
                assert(parts@.map_values(|p: String| p@) =~= seq![s@]);
            }
            parts
        },
        Some(i) => {
            proof {
                lemma_find_char(s@, sep);
            }
            let head = String::from_str(s.substring_char(0, i));
            let rest = s.substring_char(i + 1, len);
            let mut parts = split_char(rest, sep);
            parts.insert(0, head);
            proof {
                let ghost gi = i as int;
                assert(head@ =~= s@.take(gi));
                assert(rest@ =~= s@.skip(gi + 1));
                assert(parts@.map_values(|p: String| p@) =~= seq![s@.take(gi)] + split_on(
                    s@.skip(gi + 1),
                    sep,
                ));
            }
            parts
        },
    }
}

/// The whitespace characters that segment trimming removes.
pub open spec fn is_space(c: char) -> bool {
    c == ' ' || c == '\t' || c == '\n' || c == '\r'
}

/// `s` without leading whitespace.
pub open spec fn trim_left(s: Seq<char>) -> Seq<char>
    decreases s.len(),
{
    if s.len() > 0 && is_space(s[0]) {
        trim_left(s.skip(1))
    } else {
        s
    }
}

/// `s` without trailing whitespace.
pub open spec fn trim_right(s: Seq<char>) -> Seq<char>
    decreases s.len(),
{
    if s.len() > 0 && is_space(s[s.len() - 1]) {
        trim_right(s.take(s.len() - 1))
    } else {
        s
    }
}

/// `s` without leading or trailing whitespace.
pub open spec fn trim_spec(s: Seq<char>) -> Seq<char> {
    trim_right(trim_left(s))
}

fn char_is_space(c: char) -> (r: bool)
    ensures
        r == is_space(c),
{
    c == ' ' || c == '\t' || c == '\n' || c == '\r'
}

fn trim_start(s: &str) -> (r: &str)
    ensures
        r@ == trim_left(s@),
    decreases s@.len(),
{
    let len = s.unicode_len();
    if len > 0 && char_is_space(s.get_char(0)) {
        let rest = s.substring_char(1, len);
        proof {
            assert(rest@ =~= s@.skip(1));
        }
        trim_start(rest)
    } else {
        s
    }
}

fn trim_end(s: &str) -> (r: &str)
    ensures
        r@ == trim_right(s@),
    decreases s@.len(),
{
    let len = s.unicode_len();
    if len > 0 && char_is_space(s.get_char(len - 1)) {
        let rest = s.substring_char(0, len - 1);
        proof {
            assert(rest@ =~= s@.take(s@.len() - 1));
        }
        trim_end(rest)
    } else {
        s
    }
}

/// Removes leading and trailing whitespace.
pub fn trim(s: &str) -> (r: &str)
    ensures
        r@ == trim_spec(s@),
{
    trim_end(trim_start(s))
}

/// The parts joined with `sep` between consecutive parts.
pub open spec fn join_with(parts: Seq<Seq<char>>, sep: Seq<char>) -> Seq<char>
    decreases parts.len(),
{
    if parts.len() == 0 {
        Seq::empty()
    } else if parts.len() == 1 {
        parts[0]
    } else {
        parts[0] + sep + join_with(parts.skip(1), sep)
    }
}

proof fn lemma_join_snoc(parts: Seq<Seq<char>>, p: Seq<char>, sep: Seq<char>)
    ensures
        parts.len() == 0 ==> join_with(parts.push(p), sep) == p,
        parts.len() > 0 ==> join_with(parts.push(p), sep) == join_with(parts, sep) + sep + p,
    decreases parts.len(),
{
    if parts.len() == 0 {
        assert(parts.push(p)[0] == p);
        assert(join_with(parts.push(p), sep) == p);
    } else if parts.len() == 1 {
        assert(parts.push(p).skip(1) =~= seq![p]);
        assert(parts.push(p)[0] == parts[0]);
        assert(join_with(seq![p], sep) == p);
        assert(join_with(parts, sep) == parts[0]);
    } else {
        lemma_join_snoc(parts.skip(1), p, sep);
        assert(parts.push(p).skip(1) =~= parts.skip(1).push(p));
        assert(parts.push(p)[0] == parts[0]);
        assert(join_with(parts.push(p), sep) == parts[0] + sep + join_with(
            parts.skip(1).push(p),
            sep,
        ));
        assert(parts[0] + sep + (join_with(parts.skip(1), sep) + sep + p) =~= (parts[0] + sep
            + join_with(parts.skip(1), sep)) + sep + p);
    }
}

/// Joins the parts with the separator between consecutive parts.
pub fn join(parts: &Vec<String>, sep: &str) -> (r: String)
    ensures
        r@ == join_with(parts@.map_values(|p: String| p@), sep@),
{
    let ghost gparts = parts@.map_values(|p: String| p@);
    let mut r = String::new();
    let mut i: usize = 0;
    while i < parts.len()
        invariant
            i <= parts.len(),
            gparts == parts@.map_values(|p: String| p@),
            gparts.len() == parts@.len(),
            r@ == join_with(gparts.take(i as int), sep@),
        decreases parts.len() - i,
    {
        if i > 0 {
            r.append(sep);
        }
        r.append(parts[i].as_str());
        proof {
            lemma_join_snoc(gparts.take(i as int), gparts[i as int], sep@);
            assert(gparts.take(i + 1) =~= gparts.take(i as int).push(gparts[i as int]));
        }
        i += 1;
    }
    proof {
        assert(gparts.take(gparts.len() as int) =~= gparts);
    }
    r
}

} // verus!
