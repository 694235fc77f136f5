//! Text primitives over sequences of characters.

use vstd::prelude::*;

verus! {

/// The texts that a list of strings holds, in order.
pub open spec fn texts(v: Seq<String>) -> Seq<Seq<char>> {
    v.map_values(|s: String| s@)
}

/// The text an optional string holds, if any.
pub open spec fn opt_text(o: Option<String>) -> Option<Seq<char>> {
    match o {
        Some(s) => Some(s@),
        None => None,
    }
}

/// `needle` stands in `s` at position `i`.
pub open spec fn occurs_at(s: Seq<char>, needle: Seq<char>, i: int) -> bool {
    0 <= i && i + needle.len() <= s.len() && s.subrange(i, i + needle.len()) == needle
}

/// `needle` stands somewhere in `s`.
pub open spec fn contains(s: Seq<char>, needle: Seq<char>) -> bool {
    exists|i: int| occurs_at(s, needle, i)
}

/// The characters of `s`, in order.
pub fn chars_of(s: &str) -> (r: Vec<char>)
    ensures
        r@ == s@,
{
    let n: usize = s.unicode_len();
    let mut out: Vec<char> = Vec::new();
    let mut i: usize = 0;
    while i < n
        invariant
            n == s@.len(),
            i <= n,
            out@ == s@.subrange(0, i as int),
        decreases n - i,
    {
        out.push(s.get_char(i));
        i = i + 1;
        assert(out@ =~= s@.subrange(0, i as int));
    }
    assert(s@.subrange(0, n as int) =~= s@);
    out
}

/// Whether two texts hold the same characters.
pub fn same_text(a: &str, b: &str) -> (r: bool)
    ensures
        r == (a@ == b@),
{
    let x = chars_of(a);
    let y = chars_of(b);
    if x.len() != y.len() {
        return false;
    }
    let mut i: usize = 0;
    while i < x.len()
        invariant
            x@ == a@,
            y@ == b@,
            x.len() == y.len(),
            i <= x.len(),
            forall|j: int| 0 <= j < i ==> x@[j] == y@[j],
        decreases x.len() - i,
    {
        if x[i] != y[i] {
            assert(a@[i as int] != b@[i as int]);
            return false;
        }
        i = i + 1;
    }
    assert(x@ =~= y@);
    true
}


/// Whether `s` begins with `prefix`.
pub fn starts_with(s: &str, prefix: &str) -> (r: bool)
    ensures
        r == prefix@.is_prefix_of(s@),
{
    let x = chars_of(s);
    let p = chars_of(prefix);
    if p.len() > x.len() {
        return false;
    }
    let mut i: usize = 0;
    while i < p.len()
        invariant
            x@ == s@,
            p@ == prefix@,
            p.len() <= x.len(),
            i <= p.len(),
            forall|j: int| 0 <= j < i ==> x@[j] == p@[j],
        decreases p.len() - i,
    {
        if x[i] != p[i] {
            assert(s@.subrange(0, p.len() as int)[i as int] != prefix@[i as int]);
            return false;
        }
        i = i + 1;
    }
    assert(prefix@ =~= s@.subrange(0, p.len() as int));
    true
}

/// Whether `s` ends with `suffix`.
pub fn ends_with(s: &str, suffix: &str) -> (r: bool)
    ensures
        r == suffix@.is_suffix_of(s@),
{
    let x = chars_of(s);
    let p = chars_of(suffix);
    if p.len() > x.len() {
        return false;
    }
    let off: usize = x.len() - p.len();
    let mut i: usize = 0;
    while i < p.len()
        invariant
            x@ == s@,
            p@ == suffix@,
            p.len() <= x.len(),
            off == x.len() - p.len(),
            i <= p.len(),
            forall|j: int| 0 <= j < i ==> x@[off + j] == p@[j],
        decreases p.len() - i,
    {
        if x[off + i] != p[i] {
            assert(s@.subrange(off as int, s@.len() as int)[i as int] != suffix@[i as int]);
            return false;
        }
        i = i + 1;
    }
    assert(suffix@ =~= s@.subrange(off as int, s@.len() as int));
    true
}

fn matches_at(x: &Vec<char>, p: &Vec<char>, at: usize) -> (r: bool)
    requires
        at + p.len() <= x.len(),
    ensures
        r == occurs_at(x@, p@, at as int),
{
    let mut i: usize = 0;
    while i < p.len()
        invariant
            at + p.len() <= x.len(),
            i <= p.len(),
            forall|j: int| 0 <= j < i ==> x@[at + j] == p@[j],
        decreases p.len() - i,
    {
        if x[at + i] != p[i] {
            assert(x@.subrange(at as int, at + p.len())[i as int] != p@[i as int]);
            return false;
        }
        i = i + 1;
    }
    assert(x@.subrange(at as int, at + p.len()) =~= p@);
    true
}

/// Whether `needle` stands somewhere in `s`.
pub fn contains_text(s: &str, needle: &str) -> (r: bool)
    ensures
        r == contains(s@, needle@),
{
    let x = chars_of(s);
    let p = chars_of(needle);
    if p.len() > x.len() {
        assert(forall|i: int| !occurs_at(s@, needle@, i));
        return false;
    }
    if p.len() == 0 {
        assert(s@.subrange(0, 0) =~= needle@);
        assert(occurs_at(s@, needle@, 0));
        return true;
    }
    let last: usize = x.len() - p.len();
    let mut at: usize = 0;
    while at <= last
        invariant
            x@ == s@,
            p@ == needle@,
            0 < p.len() <= x.len(),
            last == x.len() - p.len(),
            at <= last + 1,
            forall|i: int| 0 <= i < at ==> !occurs_at(s@, needle@, i),
        decreases last + 1 - at,
    {
        if matches_at(&x, &p, at) {
            return true;
        }
        at = at + 1;
    }
    assert(forall|i: int| !occurs_at(s@, needle@, i));
    false
}

/// `s` without its first `n` characters; nothing is left of a text
/// that has no more than `n`.
pub open spec fn rest_after(s: Seq<char>, n: int) -> Seq<char> {
    if n <= s.len() {
        s.skip(n)
    } else {
        Seq::empty()
    }
}

/// Drops the first `n` characters of `s`.
pub fn skip_chars(s: &str, n: usize) -> (r: String)
    ensures
        r@ == rest_after(s@, n as int),
{
    let len: usize = s.unicode_len();
    if n <= len {
        String::from_str(s.substring_char(n, len))
    } else {
        String::new()
    }
}

/// White space, as the Unicode property of that name has it.
pub open spec fn is_space(c: char) -> bool {
    let n = c as u32;
    (0x09 <= n <= 0x0D) || n == 0x20 || n == 0x85 || n == 0xA0 || n == 0x1680 || (0x2000 <= n
        <= 0x200A) || n == 0x2028 || n == 0x2029 || n == 0x202F || n == 0x205F || n == 0x3000
}

/// `s` without the white space it begins with.
pub open spec fn trim_front(s: Seq<char>) -> Seq<char>
    decreases s.len(),
{
    if s.len() > 0 && is_space(s[0]) {
        trim_front(s.skip(1))
    } else {
        s
    }
}

/// `s` without the white space it ends with.
pub open spec fn trim_back(s: Seq<char>) -> Seq<char>
    decreases s.len(),
{
    if s.len() > 0 && is_space(s.last()) {
        trim_back(s.drop_last())
    } else {
        s
    }
}

/// `s` without white space at either end.
pub open spec fn trimmed(s: Seq<char>) -> Seq<char> {
    trim_back(trim_front(s))
}

fn is_space_char(c: char) -> (r: bool)
    ensures
        r == is_space(c),
{
    let n: u32 = c as u32;
    (0x09 <= n && n <= 0x0D) || n == 0x20 || n == 0x85 || n == 0xA0 || n == 0x1680 || (0x2000 <= n
        && n <= 0x200A) || n == 0x2028 || n == 0x2029 || n == 0x202F || n == 0x205F || n == 0x3000
}

/// Removes the white space at both ends of `s`.
pub fn trim(s: &str) -> (r: String)
    ensures
        r@ == trimmed(s@),
{
    let x = chars_of(s);
    let n: usize = x.len();
    let mut a: usize = 0;
    assert(x@.skip(0) =~= x@);
    while a < n && is_space_char(x[a])
        invariant
            n == x.len(),
            a <= n,
            trim_front(x@) == trim_front(x@.skip(a as int)),
        decreases n - a,
    {
        assert(x@.skip(a as int).skip(1) =~= x@.skip(a + 1));
        a = a + 1;
    }
    assert(trim_front(x@) == x@.skip(a as int));
    let mut b: usize = n;
    assert(x@.skip(a as int) =~= x@.subrange(a as int, b as int));
    while b > a && is_space_char(x[b - 1])
        invariant
            n == x.len(),
            a <= b <= n,
            trim_back(x@.skip(a as int)) == trim_back(x@.subrange(a as int, b as int)),
        decreases b - a,
    {
        assert(x@.subrange(a as int, b as int).drop_last() =~= x@.subrange(a as int, b - 1));
        b = b - 1;
    }
    assert(trim_back(x@.skip(a as int)) == x@.subrange(a as int, b as int));
    String::from_str(s.substring_char(a, b))
}

/// The character that writes the digit `d`.
pub open spec fn digit(d: nat) -> char {
    if d == 0 {
        '0'
    } else if d == 1 {
        '1'
    } else if d == 2 {
        '2'
    } else if d == 3 {
        '3'
    } else if d == 4 {
        '4'
    } else if d == 5 {
        '5'
    } else if d == 6 {
        '6'
    } else if d == 7 {
        '7'
    } else if d == 8 {
        '8'
    } else {
        '9'
    }
}

/// `n` written in base ten, without leading zeros.
pub open spec fn decimal(n: nat) -> Seq<char>
    decreases n,
{
    if n < 10 {
        seq![digit(n)]
    } else {
        decimal(n / 10).push(digit(n % 10))
    }
}

fn digit_text(d: u64) -> (r: &'static str)
    requires
        d < 10,
    ensures
        r@ == seq![digit(d as nat)],
{
    proof {
        reveal_strlit("0");
        reveal_strlit("1");
        reveal_strlit("2");
        reveal_strlit("3");
        reveal_strlit("4");
        reveal_strlit("5");
        reveal_strlit("6");
        reveal_strlit("7");
        reveal_strlit("8");
        reveal_strlit("9");
    }
    let r = if d == 0 {
        "0"
    } else if d == 1 {
        "1"
    } else if d == 2 {
        "2"
    } else if d == 3 {
        "3"
    } else if d == 4 {
        "4"
    } else if d == 5 {
        "5"
    } else if d == 6 {
        "6"
    } else if d == 7 {
        "7"
    } else if d == 8 {
        "8"
    } else {
        "9"
    };
    assert(r@ =~= seq![digit(d as nat)]);
    r
}

/// Writes `n` in base ten.
pub fn decimal_text(n: u64) -> (r: String)
    ensures
        r@ == decimal(n as nat),
    decreases n,
{
    if n < 10 {
        String::from_str(digit_text(n))
    } else {
        let head = decimal_text(n / 10);
        let r = head.concat(digit_text(n % 10));
        assert(r@ =~= decimal((n / 10) as nat).push(digit((n % 10) as nat)));
        r
    }
}

} // verus!
