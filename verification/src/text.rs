//! Character-level helpers: whitespace trimming, ASCII case folding,
//! decimal digits, and building strings.

use vstd::prelude::*;
use vstd::string::StrSliceExecFns;

verus! {

/// The Unicode `White_Space` property, which `char::is_whitespace` implements.
pub open spec fn is_whitespace(c: char) -> bool {
    let n = c as u32;
    ||| 0x09 <= n <= 0x0d
    ||| n == 0x20
    ||| n == 0x85
    ||| n == 0xa0
    ||| n == 0x1680
    ||| 0x2000 <= n <= 0x200a
    ||| n == 0x2028
    ||| n == 0x2029
    ||| n == 0x202f
    ||| n == 0x205f
    ||| n == 0x3000
}

/// `s` without its leading whitespace.
pub open spec fn trim_start(s: Seq<char>) -> Seq<char>
    decreases s.len(),
{
    if s.len() > 0 && is_whitespace(s[0]) {
        trim_start(s.drop_first())
    } else {
        s
    }
}

/// `s` without its trailing whitespace.
pub open spec fn trim_end(s: Seq<char>) -> Seq<char>
    decreases s.len(),
{
    if s.len() > 0 && is_whitespace(s.last()) {
        trim_end(s.drop_last())
    } else {
        s
    }
}

/// `s` without leading and trailing whitespace, as `str::trim` gives it.
pub open spec fn trim(s: Seq<char>) -> Seq<char> {
    trim_end(trim_start(s))
}

pub open spec fn is_ascii_upper(c: char) -> bool {
    0x41 <= (c as u32) <= 0x5a
}

/// `char::to_ascii_lowercase`: ASCII capitals become small letters, all else stays.
pub open spec fn ascii_lower(c: char) -> char {
    if is_ascii_upper(c) {
        ((c as u32) + 32) as char
    } else {
        c
    }
}

/// `str::to_ascii_lowercase` on a sequence of characters.
pub open spec fn lower_all(s: Seq<char>) -> Seq<char> {
    Seq::new(s.len(), |i: int| ascii_lower(s[i]))
}

pub open spec fn is_ascii_digit(c: char) -> bool {
    0x30 <= (c as u32) <= 0x39
}

pub open spec fn all_digits(s: Seq<char>) -> bool {
    forall|i: int| 0 <= i < s.len() ==> is_ascii_digit(#[trigger] s[i])
}

pub open spec fn digit_value(c: char) -> nat {
    ((c as u32) - 0x30) as nat
}

/// The character of a decimal digit `d < 10`.
pub open spec fn digit_char(d: nat) -> char {
    (d + 0x30) as char
}

/// The number that a string of decimal digits denotes (leading zeros allowed).
pub open spec fn digits_value(s: Seq<char>) -> nat
    decreases s.len(),
{
    if s.len() == 0 {
        0
    } else {
        digits_value(s.drop_last()) * 10 + digit_value(s.last())
    }
}

/// The decimal representation of `n`, without leading zeros, as `Display` writes it.
pub open spec fn decimal(n: nat) -> Seq<char>
    decreases n,
{
    if n < 10 {
        seq![digit_char(n)]
    } else {
        decimal(n / 10).push(digit_char(n % 10))
    }
}

/// The characters of each string of a list.
pub open spec fn strings_view(v: Seq<String>) -> Seq<Seq<char>> {
    v.map_values(|s: String| s@)
}

/// The characters of `s`.
pub fn chars_of(s: &str) -> (v: Vec<char>)
    ensures
        v@ == s@,
{
    let n = s.unicode_len();
    let mut v: Vec<char> = Vec::new();
    let mut i: usize = 0;
    while i < n
        invariant
            n == s@.len(),
            i <= n,
            v@ == s@.subrange(0, i as int),
        decreases n - i,
    {
        v.push(s.get_char(i));
        i = i + 1;
    }
    assert(v@ =~= s@);
    v
}

/// Appends one character to a string (`String::push`).
#[verifier::external_body]
pub(crate) fn push_char(s: &mut String, c: char)
    ensures
        final(s)@ == old(s)@.push(c),
{
    s.push(c);
}

/// A string holding exactly the characters of `v`.
pub fn string_of(v: &Vec<char>) -> (s: String)
    ensures
        s@ == v@,
{
    let mut s = String::new();
    let mut i: usize = 0;
    while i < v.len()
        invariant
            i <= v.len(),
            s@ == v@.subrange(0, i as int),
        decreases v.len() - i,
    {
        push_char(&mut s, v[i]);
        i = i + 1;
        assert(s@ =~= v@.subrange(0, i as int));
    }
    assert(s@ =~= v@);
    s
}

pub fn char_is_whitespace(c: char) -> (b: bool)
    ensures
        b == is_whitespace(c),
{
    let n = c as u32;
    (0x09 <= n && n <= 0x0d) || n == 0x20 || n == 0x85 || n == 0xa0 || n == 0x1680 || (0x2000
        <= n && n <= 0x200a) || n == 0x2028 || n == 0x2029 || n == 0x202f || n == 0x205f || n
        == 0x3000
}

pub fn char_is_ascii_digit(c: char) -> (b: bool)
    ensures
        b == is_ascii_digit(c),
{
    let n = c as u32;
    0x30 <= n && n <= 0x39
}

pub fn char_to_ascii_lower(c: char) -> (r: char)
    ensures
        r == ascii_lower(c),
{
    let n = c as u32;
    if 0x41 <= n && n <= 0x5a {
        let b: u8 = (n + 32) as u8;
        assert(b as u32 == n + 32);
        b as char
    } else {
        c
    }
}

proof fn lemma_trim_start_step(s: Seq<char>, i: int)
    requires
        0 <= i < s.len(),
        is_whitespace(s[i]),
    ensures
        trim_start(s.subrange(i, s.len() as int)) == trim_start(s.subrange(i + 1, s.len() as int)),
{
    let t = s.subrange(i, s.len() as int);
    assert(t.drop_first() =~= s.subrange(i + 1, s.len() as int));
}

/// The characters of `s` without leading and trailing whitespace (`str::trim`).
pub fn trim_chars(s: &Vec<char>) -> (t: Vec<char>)
    ensures
        t@ == trim(s@),
{
    let n = s.len();
    let mut i: usize = 0;
    assert(s@.subrange(0, n as int) =~= s@);
    while i < n && char_is_whitespace(s[i])
        invariant
            n == s@.len(),
            i <= n,
            trim_start(s@) == trim_start(s@.subrange(i as int, n as int)),
        decreases n - i,
    {
        proof {
            lemma_trim_start_step(s@, i as int);
        }
        i = i + 1;
    }
    assert(s@.subrange(n as int, n as int) =~= Seq::<char>::empty());
    let ghost rest = s@.subrange(i as int, n as int);
    assert(trim_start(s@) == rest);
    let mut j: usize = n;
    while j > i && char_is_whitespace(s[j - 1])
        invariant
            n == s@.len(),
            i <= j <= n,
            rest == s@.subrange(i as int, n as int),
            trim_end(rest) == trim_end(s@.subrange(i as int, j as int)),
        decreases j,
    {
        proof {
            let r = s@.subrange(i as int, j as int);
            assert(r.drop_last() =~= s@.subrange(i as int, j - 1));
        }
        j = j - 1;
    }
    assert(s@.subrange(i as int, i as int) =~= Seq::<char>::empty());
    let mut t: Vec<char> = Vec::new();
    let mut k: usize = i;
    while k < j
        invariant
            n == s@.len(),
            i <= k <= j <= n,
            t@ == s@.subrange(i as int, k as int),
        decreases j - k,
    {
        t.push(s[k]);
        k = k + 1;
        assert(t@ =~= s@.subrange(i as int, k as int));
    }
    t
}

/// The characters of `s` with ASCII capitals made small (`str::to_ascii_lowercase`).
pub fn lower_chars(s: &Vec<char>) -> (t: Vec<char>)
    ensures
        t@ == lower_all(s@),
{
    let mut t: Vec<char> = Vec::new();
    let mut k: usize = 0;
    while k < s.len()
        invariant
            k <= s.len(),
            t@ == lower_all(s@.subrange(0, k as int)),
        decreases s.len() - k,
    {
        t.push(char_to_ascii_lower(s[k]));
        k = k + 1;
        assert(t@ =~= lower_all(s@.subrange(0, k as int)));
    }
    assert(s@.subrange(0, s.len() as int) =~= s@);
    t
}

/// A copy of `v[from..to]`.
pub fn copy_range(v: &Vec<char>, from: usize, to: usize) -> (t: Vec<char>)
    requires
        from <= to <= v@.len(),
    ensures
        t@ == v@.subrange(from as int, to as int),
{
    let mut t: Vec<char> = Vec::new();
    let mut k: usize = from;
    while k < to
        invariant
            from <= k <= to <= v@.len(),
            t@ == v@.subrange(from as int, k as int),
        decreases to - k,
    {
        t.push(v[k]);
        k = k + 1;
        assert(t@ =~= v@.subrange(from as int, k as int));
    }
    t
}

/// Dropping digits from the end of a digit string never makes its value larger.
pub proof fn lemma_digits_value_prefix_le(s: Seq<char>, i: int)
    requires
        0 <= i <= s.len(),
    ensures
        digits_value(s.subrange(0, i)) <= digits_value(s),
    decreases s.len(),
{
    if i < s.len() {
        lemma_digits_value_prefix_le(s.drop_last(), i);
        assert(s.drop_last().subrange(0, i) =~= s.subrange(0, i));
    } else {
        assert(s.subrange(0, i) =~= s);
    }
}

/// The value of the digits `v[from..to]`, or `None` when it does not fit in a `u64`.
pub fn digits_to_u64(v: &Vec<char>, from: usize, to: usize) -> (r: Option<u64>)
    requires
        from <= to <= v@.len(),
        all_digits(v@.subrange(from as int, to as int)),
    ensures
        r is None <==> digits_value(v@.subrange(from as int, to as int)) > u64::MAX,
        r matches Some(x) ==> x == digits_value(v@.subrange(from as int, to as int)),
{
    let ghost d = v@.subrange(from as int, to as int);
    let mut acc: u64 = 0;
    let mut k: usize = from;
    assert(d.subrange(0, 0) =~= Seq::<char>::empty());
    while k < to
        invariant
            from <= k <= to <= v@.len(),
            d == v@.subrange(from as int, to as int),
            all_digits(d),
            acc == digits_value(d.subrange(0, k - from)),
        decreases to - k,
    {
        let c = v[k];
        assert(d[k - from] == c);
        let dv: u64 = ((c as u32) - 0x30) as u64;
        let ghost next = d.subrange(0, k - from + 1);
        assert(next.drop_last() =~= d.subrange(0, k - from));
        assert(digits_value(next) == digits_value(d.subrange(0, k - from)) * 10 + dv);
        match acc.checked_mul(10) {
            None => {
                proof {
                    lemma_digits_value_prefix_le(d, k - from + 1);
                }
                return None;
            },
            Some(m) => match m.checked_add(dv) {
                None => {
                    proof {
                        lemma_digits_value_prefix_le(d, k - from + 1);
                    }
                    return None;
                },
                Some(a) => {
                    acc = a;
                },
            },
        }
        k = k + 1;
    }
    assert(d.subrange(0, to - from) =~= d);
    Some(acc)
}

proof fn lemma_digit_char(d: nat)
    requires
        d < 10,
    ensures
        is_ascii_digit(digit_char(d)),
        digit_value(digit_char(d)) == d,
{
    assert(((d + 0x30) as char) as u32 == d + 0x30);
}

/// Facts about the decimal representation of `n`.
pub proof fn lemma_decimal(n: nat)
    ensures
        decimal(n).len() >= 1,
        all_digits(decimal(n)),
        digits_value(decimal(n)) == n,
    decreases n,
{
    lemma_digit_char(n % 10);
    if n < 10 {
        let s = decimal(n);
        assert(s.drop_last() =~= Seq::<char>::empty());
        assert(digits_value(s.drop_last()) == 0);
        assert(s.last() == digit_char(n % 10));
    } else {
        lemma_decimal(n / 10);
        let s = decimal(n);
        assert(s.drop_last() =~= decimal(n / 10));
        assert(s.last() == digit_char(n % 10));
        assert(digits_value(s) == digits_value(decimal(n / 10)) * 10 + digit_value(s.last()));
        assert forall|i: int| 0 <= i < s.len() implies is_ascii_digit(#[trigger] s[i]) by {
            if i < s.len() - 1 {
                assert(s[i] == decimal(n / 10)[i]);
            }
        }
    }
}

/// The decimal representation of `n` (`n.to_string()`).
pub fn u64_decimal(n: u64) -> (v: Vec<char>)
    ensures
        v@ == decimal(n as nat),
    decreases n,
{
    let d: u8 = (n % 10) as u8;
    let c: char = (d + 0x30) as char;
    assert(c == digit_char((n % 10) as nat));
    if n < 10 {
        let mut v: Vec<char> = Vec::new();
        v.push(c);
        assert(v@ =~= seq![c]);
        v
    } else {
        let mut v = u64_decimal(n / 10);
        v.push(c);
        v
    }
}

/// `n.to_string()`.
pub fn u64_to_string(n: u64) -> (s: String)
    ensures
        s@ == decimal(n as nat),
{
    let v = u64_decimal(n);
    string_of(&v)
}

/// How many ASCII digits `s` starts with.
pub open spec fn digit_prefix_len(s: Seq<char>) -> nat
    decreases s.len(),
{
    if s.len() > 0 && is_ascii_digit(s[0]) {
        1 + digit_prefix_len(s.drop_first())
    } else {
        0
    }
}

/// A digit string followed by a non-digit has exactly that many leading digits.
pub proof fn lemma_digit_prefix_len_push(a: Seq<char>, u: char)
    requires
        all_digits(a),
        !is_ascii_digit(u),
    ensures
        digit_prefix_len(a.push(u)) == a.len(),
    decreases a.len(),
{
    if a.len() > 0 {
        assert(a.push(u).drop_first() =~= a.drop_first().push(u));
        assert(is_ascii_digit(a[0]));
        lemma_digit_prefix_len_push(a.drop_first(), u);
    } else {
        assert(a.push(u)[0] == u);
    }
}

/// Trimming leaves a string that neither starts nor ends with whitespace unchanged.
pub proof fn lemma_trim_noop(s: Seq<char>)
    requires
        s.len() > 0,
        !is_whitespace(s[0]),
        !is_whitespace(s.last()),
    ensures
        trim(s) == s,
{
    assert(trim_start(s) == s);
    assert(trim_end(s) == s);
}

/// Lower-casing leaves a string without ASCII capitals unchanged.
pub proof fn lemma_lower_noop(s: Seq<char>)
    requires
        forall|i: int| 0 <= i < s.len() ==> !is_ascii_upper(#[trigger] s[i]),
    ensures
        lower_all(s) == s,
{
    assert(lower_all(s) =~= s);
}

/// Whether two strings hold the same characters (`==` on `str`).
pub fn str_eq(a: &str, b: &str) -> (r: bool)
    ensures
        r == (a@ == b@),
{
    let n = a.unicode_len();
    let m = b.unicode_len();
    if n != m {
        return false;
    }
    let mut i: usize = 0;
    while i < n
        invariant
            n == a@.len(),
            m == b@.len(),
            n == m,
            i <= n,
            forall|k: int| 0 <= k < i ==> a@[k] == b@[k],
        decreases n - i,
    {
        if a.get_char(i) != b.get_char(i) {
            return false;
        }
        i = i + 1;
    }
    assert(a@ =~= b@);
    true
}


/// Trimming takes off exactly the whitespace at both ends: the text is the
/// whitespace `before`, then the trimmed text, then the whitespace `after`,
/// and the trimmed text neither starts nor ends with whitespace.
pub proof fn lemma_trim_strips_whitespace_ends(s: Seq<char>) -> (parts: (Seq<char>, Seq<char>))
    ensures
        s == parts.0 + trim(s) + parts.1,
        forall|i: int| 0 <= i < parts.0.len() ==> is_whitespace(#[trigger] parts.0[i]),
        forall|i: int| 0 <= i < parts.1.len() ==> is_whitespace(#[trigger] parts.1[i]),
        trim(s).len() > 0 ==> !is_whitespace(trim(s)[0]) && !is_whitespace(trim(s).last()),
{
    let (a, m) = lemma_trim_start_parts(s);
    let (m2, b) = lemma_trim_end_parts(m);
    assert(s =~= a + trim(s) + b);
    if trim(s).len() > 0 {
        assert(trim(s)[0] == m[0]);
    }
    (a, b)
}

proof fn lemma_trim_start_parts(s: Seq<char>) -> (r: (Seq<char>, Seq<char>))
    ensures
        r.1 == trim_start(s),
        s == r.0 + r.1,
        forall|i: int| 0 <= i < r.0.len() ==> is_whitespace(#[trigger] r.0[i]),
        r.1.len() > 0 ==> !is_whitespace(r.1[0]),
    decreases s.len(),
{
    if s.len() > 0 && is_whitespace(s[0]) {
        let (a, m) = lemma_trim_start_parts(s.drop_first());
        let a2 = seq![s[0]] + a;
        let d = s.drop_first();
        assert(d == a + m);
        assert forall|i: int| 0 <= i < s.len() implies s[i] == (a2 + m)[i] by {
            if i > 0 {
                assert(s[i] == d[i - 1]);
                assert((a2 + m)[i] == (a + m)[i - 1]);
            }
        }
        assert(s =~= a2 + m);
        assert forall|i: int| 0 <= i < a2.len() implies is_whitespace(#[trigger] a2[i]) by {
            if i > 0 {
                assert(a2[i] == a[i - 1]);
            }
        }
        (a2, m)
    } else {
        assert(s =~= Seq::<char>::empty() + s);
        (Seq::empty(), s)
    }
}

proof fn lemma_trim_end_parts(s: Seq<char>) -> (r: (Seq<char>, Seq<char>))
    ensures
        r.0 == trim_end(s),
        s == r.0 + r.1,
        forall|i: int| 0 <= i < r.1.len() ==> is_whitespace(#[trigger] r.1[i]),
        r.0.len() > 0 ==> !is_whitespace(r.0.last()),
        r.0.len() > 0 ==> r.0[0] == s[0],
    decreases s.len(),
{
    if s.len() > 0 && is_whitespace(s.last()) {
        let (m, b) = lemma_trim_end_parts(s.drop_last());
        let b2 = b.push(s.last());
        let d = s.drop_last();
        assert(d == m + b);
        assert forall|i: int| 0 <= i < s.len() implies s[i] == (m + b2)[i] by {
            if i < s.len() - 1 {
                assert(s[i] == d[i]);
                assert((m + b2)[i] == (m + b)[i]);
            }
        }
        assert(s =~= m + b2);
        assert forall|i: int| 0 <= i < b2.len() implies is_whitespace(#[trigger] b2[i]) by {
            if i < b.len() {
                assert(b2[i] == b[i]);
            }
        }
        if m.len() > 0 {
            assert(m[0] == s.drop_last()[0]);
        }
        (m, b2)
    } else {
        assert(s =~= s + Seq::<char>::empty());
        (s, Seq::empty())
    }
}

/// Lower-casing keeps the length and each character's place, turning exactly
/// the ASCII capitals into their small letters.
pub proof fn lemma_lower_all_per_char(s: Seq<char>)
    ensures
        lower_all(s).len() == s.len(),
        forall|i: int| 0 <= i < s.len() && is_ascii_upper(s[i]) ==> (lower_all(s)[i] as u32) == (s[i] as u32)
            + 32,
        forall|i: int| 0 <= i < s.len() && !is_ascii_upper(s[i]) ==> lower_all(s)[i] == s[i],
{
}

} // verus!
