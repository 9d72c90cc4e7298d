//! Character-level text handling shared by the settings and configuration
//! parsers: line splitting, trimming, searching and decimal numbers.
use vstd::prelude::*;

verus! {

broadcast use vstd::string::group_string_axioms;

/// `String::push` appends one character.
pub assume_specification[ String::push ](s: &mut String, ch: char)
    ensures
        final(s)@ == old(s)@.push(ch),
;

// ---------------------------------------------------------------------------
// Model
// ---------------------------------------------------------------------------

/// The characters that `char::is_whitespace` accepts (Unicode `White_Space`).
pub open spec fn is_space(c: char) -> bool {
    let u = c as u32;
    ||| 0x09 <= u <= 0x0d
    ||| u == 0x20
    ||| u == 0x85
    ||| u == 0xa0
    ||| u == 0x1680
    ||| 0x2000 <= u <= 0x200a
    ||| u == 0x2028
    ||| u == 0x2029
    ||| u == 0x202f
    ||| u == 0x205f
    ||| u == 0x3000
}

/// `s` without its leading white space.
pub open spec fn trim_start(s: Seq<char>) -> Seq<char>
    decreases s.len(),
{
    if s.len() > 0 && is_space(s[0]) {
        trim_start(s.drop_first())
    } else {
        s
    }
}

/// `s` without its trailing white space.
pub open spec fn trim_end(s: Seq<char>) -> Seq<char>
    decreases s.len(),
{
    if s.len() > 0 && is_space(s.last()) {
        trim_end(s.drop_last())
    } else {
        s
    }
}

/// `s` without leading and trailing white space, as `str::trim` gives it.
pub open spec fn trim(s: Seq<char>) -> Seq<char> {
    trim_end(trim_start(s))
}

/// The index of the first `c` in `s`, or `s.len()` when there is none.
pub open spec fn find(s: Seq<char>, c: char) -> nat
    decreases s.len(),
{
    if s.len() == 0 {
        0
    } else if s[0] == c {
        0
    } else {
        1 + find(s.drop_first(), c)
    }
}

/// The lines of `s` as `str::lines` yields them: the pieces between line
/// feeds, where a final line feed does not start an empty last line.
/// A carriage return before a line feed stays at the end of its line; every
/// parser of this crate trims it away with the other white space.
pub open spec fn lines_of(s: Seq<char>) -> Seq<Seq<char>>
    decreases s.len(),
{
    if s.len() == 0 {
        Seq::empty()
    } else {
        let i = find(s, '\n');
        if i >= s.len() {
            seq![s]
        } else {
            seq![s.subrange(0, i as int)] + lines_of(s.subrange(i as int + 1, s.len() as int))
        }
    }
}

/// An ASCII decimal digit.
pub open spec fn is_digit(c: char) -> bool {
    0x30 <= (c as u32) <= 0x39
}

pub open spec fn all_digits(s: Seq<char>) -> bool {
    forall|i: int| 0 <= i < s.len() ==> #[trigger] is_digit(s[i])
}

/// The number that a string of decimal digits denotes.
pub open spec fn digits_value(s: Seq<char>) -> nat
    decreases s.len(),
{
    if s.len() == 0 {
        0
    } else {
        digits_value(s.drop_last()) * 10 + ((s.last() as u32) - 0x30) as nat
    }
}

/// What `str::parse` gives for an unsigned integer type whose largest value
/// is `max`: an optional `+`, then at least one ASCII digit and nothing else,
/// denoting a value no larger than `max`.
pub open spec fn parse_unsigned(s: Seq<char>, max: nat) -> Option<nat> {
    let body = if s.len() > 0 && s[0] == '+' {
        s.drop_first()
    } else {
        s
    };
    if body.len() > 0 && all_digits(body) && digits_value(body) <= max {
        Some(digits_value(body))
    } else {
        None
    }
}

pub open spec fn word_true() -> Seq<char> {
    seq!['t', 'r', 'u', 'e']
}

pub open spec fn word_false() -> Seq<char> {
    seq!['f', 'a', 'l', 's', 'e']
}

/// What `str::parse::<bool>` gives.
pub open spec fn parse_bool(s: Seq<char>) -> Option<bool> {
    if s == word_true() {
        Some(true)
    } else if s == word_false() {
        Some(false)
    } else {
        None
    }
}

/// How `Display` writes a `bool`.
pub open spec fn bool_text(b: bool) -> Seq<char> {
    if b {
        word_true()
    } else {
        word_false()
    }
}

/// The ASCII character of a digit value below ten.
pub open spec fn digit_char(d: nat) -> char {
    ((d + 0x30) as u32) as char
}

/// The decimal digits of `n`, most significant first, without leading zeros
/// ("0" for zero): what `Display` writes for an unsigned integer.
pub open spec fn decimal(n: nat) -> Seq<char>
    decreases n,
{
    if n < 10 {
        seq![digit_char(n)]
    } else {
        decimal(n / 10).push(digit_char(n % 10))
    }
}

// ---------------------------------------------------------------------------
// Lemmas
// ---------------------------------------------------------------------------

pub proof fn lemma_find_bound(s: Seq<char>, c: char)
    ensures
        find(s, c) <= s.len(),
        find(s, c) < s.len() ==> s[find(s, c) as int] == c,
        forall|k: int| 0 <= k < find(s, c) ==> s[k] != c,
    decreases s.len(),
{
    if s.len() > 0 && s[0] != c {
        lemma_find_bound(s.drop_first(), c);
        assert forall|k: int| 0 <= k < find(s, c) implies s[k] != c by {
            if k > 0 {
                assert(s[k] == s.drop_first()[k - 1]);
            }
        }
    }
}

/// A string without `c` has no `c` to find.
pub proof fn lemma_find_absent(s: Seq<char>, c: char)
    requires
        forall|k: int| 0 <= k < s.len() ==> s[k] != c,
    ensures
        find(s, c) == s.len(),
    decreases s.len(),
{
    if s.len() > 0 {
        lemma_find_absent(s.drop_first(), c);
    }
}

/// The first `c` of `a + seq![c] + b` is the one after `a` when `a` holds none.
pub proof fn lemma_find_concat(a: Seq<char>, c: char, b: Seq<char>)
    requires
        forall|k: int| 0 <= k < a.len() ==> a[k] != c,
    ensures
        find(a + seq![c] + b, c) == a.len(),
    decreases a.len(),
{
    let s = a + seq![c] + b;
    if a.len() > 0 {
        assert(s.drop_first() =~= a.drop_first() + seq![c] + b);
        lemma_find_concat(a.drop_first(), c, b);
    }
}

/// A string that ends in a line feed splits into its first line and the
/// lines of the rest.
pub proof fn lemma_lines_concat(a: Seq<char>, b: Seq<char>)
    requires
        forall|k: int| 0 <= k < a.len() ==> a[k] != '\n',
    ensures
        lines_of(a + seq!['\n'] + b) == seq![a] + lines_of(b),
{
    let s = a + seq!['\n'] + b;
    lemma_find_concat(a, '\n', b);
    assert(s.subrange(0, a.len() as int) =~= a);
    assert(s.subrange(a.len() as int + 1, s.len() as int) =~= b);
}

/// A string whose ends are not white space is its own trim.
pub proof fn lemma_trim_plain(s: Seq<char>)
    requires
        s.len() == 0 || (!is_space(s[0]) && !is_space(s.last())),
    ensures
        trim(s) == s,
{
}

pub proof fn lemma_digit_char(d: nat)
    requires
        d < 10,
    ensures
        is_digit(digit_char(d)),
        (digit_char(d) as u32) - 0x30 == d,
        !is_space(digit_char(d)),
        digit_char(d) != '=',
        digit_char(d) != '\n',
        digit_char(d) != '+',
{
}

/// `decimal(n)` is a digit string that denotes `n`.
pub proof fn lemma_decimal(n: nat)
    ensures
        decimal(n).len() > 0,
        all_digits(decimal(n)),
        digits_value(decimal(n)) == n,
        decimal(n)[0] != '+',
        forall|k: int| 0 <= k < decimal(n).len() ==> #[trigger] decimal(n)[k] != '='
            && decimal(n)[k] != '\n' && !is_space(decimal(n)[k]),
    decreases n,
{
    if n < 10 {
        lemma_digit_char(n);
        assert(is_digit(decimal(n)[0]));
        assert(decimal(n).drop_last() =~= Seq::<char>::empty());
        assert(digits_value(Seq::<char>::empty()) == 0);
    } else {
        lemma_decimal(n / 10);
        lemma_digit_char(n % 10);
        let s = decimal(n);
        assert(s.drop_last() =~= decimal(n / 10));
        assert(s.last() == digit_char(n % 10));
        assert(digits_value(s) == digits_value(decimal(n / 10)) * 10 + n % 10);
        assert forall|k: int| 0 <= k < s.len() implies #[trigger] is_digit(s[k]) by {
            if k < s.len() - 1 {
                assert(s[k] == decimal(n / 10)[k]);
            }
        }
        assert forall|k: int| 0 <= k < s.len() implies #[trigger] s[k] != '=' && s[k] != '\n'
            && !is_space(s[k]) by {
            if k < s.len() - 1 {
                assert(s[k] == decimal(n / 10)[k]);
            }
        }
        assert(s[0] == decimal(n / 10)[0]);
    }
}

/// Parsing the decimal text of a value that fits gives the value back.
pub proof fn lemma_parse_decimal(n: nat, max: nat)
    requires
        n <= max,
    ensures
        parse_unsigned(decimal(n), max) == Some(n),
        trim(decimal(n)) == decimal(n),
{
    lemma_decimal(n);
    let s = decimal(n);
    assert(!is_space(s[0]));
    assert(!is_space(s[s.len() - 1]));
    lemma_trim_plain(s);
}

/// A digit string denotes at least as much as any of its prefixes.
pub proof fn lemma_digits_value_prefix(s: Seq<char>, i: int)
    requires
        0 <= i <= s.len(),
        all_digits(s),
    ensures
        digits_value(s.subrange(0, i)) <= digits_value(s),
    decreases s.len() - i,
{
    if i < s.len() {
        lemma_digits_value_prefix(s, i + 1);
        let p = s.subrange(0, i + 1);
        assert(p.drop_last() =~= s.subrange(0, i));
        assert(is_digit(s[i]));
    } else {
        assert(s.subrange(0, i) =~= s);
    }
}

// ---------------------------------------------------------------------------
// Executable helpers
// ---------------------------------------------------------------------------

/// The characters of `s`.
pub fn chars_of(s: &str) -> (v: Vec<char>)
    ensures
        v@ == s@,
{
    let mut v: Vec<char> = Vec::new();
    for c in it: s.chars()
        invariant
            v@ == it.seq().take(it.index() as int),
            it.seq() == s@,
    {
        v.push(c);
    }
    v
}

/// The string made of the characters of `v`.
pub fn string_of(v: &[char]) -> (s: String)
    ensures
        s@ == v@,
{
    let mut s = String::new();
    let mut i: usize = 0;
    while i < v.len()
        invariant
            i <= v@.len(),
            s@ == v@.subrange(0, i as int),
        decreases v.len() - i,
    {
        s.push(v[i]);
        i += 1;
        assert(s@ =~= v@.subrange(0, i as int));
    }
    assert(v@.subrange(0, v@.len() as int) =~= v@);
    s
}

/// The string made of the characters of `v[a..b]`.
pub fn string_of_range(v: &[char], a: usize, b: usize) -> (s: String)
    requires
        a <= b <= v@.len(),
    ensures
        s@ == v@.subrange(a as int, b as int),
{
    let mut s = String::new();
    let mut i: usize = a;
    while i < b
        invariant
            a <= i <= b <= v@.len(),
            s@ == v@.subrange(a as int, i as int),
        decreases b - i,
    {
        s.push(v[i]);
        i += 1;
        assert(s@ =~= v@.subrange(a as int, i as int));
    }
    s
}

/// Appends the characters of `w` to `out`.
pub fn push_chars(out: &mut Vec<char>, w: &[char])
    ensures
        final(out)@ == old(out)@ + w@,
{
    let mut i: usize = 0;
    while i < w.len()
        invariant
            i <= w@.len(),
            out@ == old(out)@ + w@.subrange(0, i as int),
        decreases w.len() - i,
    {
        out.push(w[i]);
        i += 1;
        assert(out@ =~= old(out)@ + w@.subrange(0, i as int));
    }
    assert(w@.subrange(0, w@.len() as int) =~= w@);
}

/// Whether `c` is white space (`char::is_whitespace`).
pub fn char_is_space(c: char) -> (r: bool)
    ensures
        r == is_space(c),
{
    let u = c as u32;
    (0x09 <= u && u <= 0x0d) || u == 0x20 || u == 0x85 || u == 0xa0 || u == 0x1680 || (0x2000
        <= u && u <= 0x200a) || u == 0x2028 || u == 0x2029 || u == 0x202f || u == 0x205f || u
        == 0x3000
}

/// The bounds of `trim(v[a..b])` inside `v`.
pub fn trim_bounds(v: &[char], a: usize, b: usize) -> (r: (usize, usize))
    requires
        a <= b <= v@.len(),
    ensures
        a <= r.0 <= r.1 <= b,
        v@.subrange(r.0 as int, r.1 as int) == trim(v@.subrange(a as int, b as int)),
{
    let mut i = a;
    while i < b && char_is_space(v[i])
        invariant
            a <= i <= b <= v@.len(),
            trim_start(v@.subrange(a as int, b as int)) == trim_start(
                v@.subrange(i as int, b as int),
            ),
        decreases b - i,
    {
        assert(v@.subrange(i as int, b as int).drop_first() =~= v@.subrange(i + 1, b as int));
        i += 1;
    }
    let mut j = b;
    while j > i && char_is_space(v[j - 1])
        invariant
            a <= i <= j <= b <= v@.len(),
            trim_end(trim_start(v@.subrange(a as int, b as int))) == trim_end(
                v@.subrange(i as int, j as int),
            ),
        decreases j - i,
    {
        assert(v@.subrange(i as int, j as int).drop_last() =~= v@.subrange(i as int, j - 1));
        j -= 1;
    }
    (i, j)
}

/// The index of the first `c` in `v[a..b]`, counted in `v`, or `b`.
pub fn find_char(v: &[char], a: usize, b: usize, c: char) -> (r: usize)
    requires
        a <= b <= v@.len(),
    ensures
        a <= r <= b,
        r - a == find(v@.subrange(a as int, b as int), c),
{
    let mut i = a;
    while i < b && v[i] != c
        invariant
            a <= i <= b <= v@.len(),
            find(v@.subrange(a as int, b as int), c) == (i - a) + find(
                v@.subrange(i as int, b as int),
                c,
            ),
        decreases b - i,
    {
        assert(v@.subrange(i as int, b as int).drop_first() =~= v@.subrange(i + 1, b as int));
        i += 1;
    }
    i
}

/// Whether `v[a..b]` is the word `w`.
pub fn range_is(v: &[char], a: usize, b: usize, w: &[char]) -> (r: bool)
    requires
        a <= b <= v@.len(),
    ensures
        r == (v@.subrange(a as int, b as int) == w@),
{
    if b - a != w.len() {
        return false;
    }
    let mut i: usize = 0;
    while i < w.len()
        invariant
            b - a == w@.len(),
            a <= b <= v@.len(),
            i <= w@.len(),
            forall|k: int| 0 <= k < i ==> v@[a + k] == w@[k],
        decreases w.len() - i,
    {
        if v[a + i] != w[i] {
            assert(v@.subrange(a as int, b as int)[i as int] != w@[i as int]);
            return false;
        }
        i += 1;
    }
    assert(v@.subrange(a as int, b as int) =~= w@);
    true
}

/// `str::parse` for an unsigned integer type with largest value `max`,
/// applied to `v[a..b]`.
pub fn parse_unsigned_range(v: &[char], a: usize, b: usize, max: u64) -> (r: Option<u64>)
    requires
        a <= b <= v@.len(),
        max <= u32::MAX,
    ensures
        match parse_unsigned(v@.subrange(a as int, b as int), max as nat) {
            Some(n) => r == Some(n as u64),
            None => r is None,
        },
{
    let ghost s = v@.subrange(a as int, b as int);
    let start = if a < b && v[a] == '+' {
        a + 1
    } else {
        a
    };
    let ghost body = v@.subrange(start as int, b as int);
    assert(body =~= (if s.len() > 0 && s[0] == '+' {
        s.drop_first()
    } else {
        s
    }));
    if start == b {
        assert(parse_unsigned(s, max as nat) is None);
        return None;
    }
    let mut acc: u64 = 0;
    let mut i = start;
    assert(v@.subrange(start as int, start as int) =~= Seq::<char>::empty());
    while i < b
        invariant
            start <= i <= b <= v@.len(),
            max <= u32::MAX,
            body == v@.subrange(start as int, b as int),
            s == v@.subrange(a as int, b as int),
            body == (if s.len() > 0 && s[0] == '+' {
                s.drop_first()
            } else {
                s
            }),
            all_digits(v@.subrange(start as int, i as int)),
            acc == digits_value(v@.subrange(start as int, i as int)),
            acc <= max,
        decreases b - i,
    {
        let c = v[i];
        if !char_is_digit(c) {
            assert(body[i - start] == c);
            assert(!is_digit(body[i - start]));
            assert(!all_digits(body));
            assert(parse_unsigned(s, max as nat) is None);
            return None;
        }
        let d = digit_value(c);
        let next = acc * 10 + d;
        let ghost pre = v@.subrange(start as int, i + 1);
        assert(pre.drop_last() =~= v@.subrange(start as int, i as int));
        if next > max {
            proof {
                assert(all_digits(pre));
                assert(pre.last() == c);
                assert(digits_value(pre) == next);
                if all_digits(body) {
                    assert(body.subrange(0, i + 1 - start) =~= pre);
                    lemma_digits_value_prefix(body, i + 1 - start);
                }
                assert(parse_unsigned(s, max as nat) is None);
            }
            return None;
        }
        acc = next;
        i += 1;
    }
    assert(v@.subrange(start as int, b as int) =~= body);
    Some(acc)
}

/// Whether `c` is an ASCII decimal digit.
pub fn char_is_digit(c: char) -> (r: bool)
    ensures
        r == is_digit(c),
{
    '0' <= c && c <= '9'
}

/// The value of the digit `c`.
pub fn digit_value(c: char) -> (d: u64)
    requires
        is_digit(c),
    ensures
        d == (c as u32) - 0x30,
        d < 10,
{
    let u = c as u32;
    (u - 0x30) as u64
}

/// `str::parse::<bool>` applied to `v[a..b]`.
pub fn parse_bool_range(v: &[char], a: usize, b: usize) -> (r: Option<bool>)
    requires
        a <= b <= v@.len(),
    ensures
        r == parse_bool(v@.subrange(a as int, b as int)),
{
    let t = ['t', 'r', 'u', 'e'];
    let f = ['f', 'a', 'l', 's', 'e'];
    if range_is(v, a, b, &t) {
        Some(true)
    } else if range_is(v, a, b, &f) {
        Some(false)
    } else {
        None
    }
}

fn digit_to_char(d: u64) -> (c: char)
    requires
        d < 10,
    ensures
        c == digit_char(d as nat),
{
    let b: u8 = (d as u8) + 0x30;
    b as char
}

/// Appends the decimal text of `n` to `out`.
pub fn push_decimal(out: &mut Vec<char>, n: u64)
    ensures
        final(out)@ == old(out)@ + decimal(n as nat),
{
    let mut digits: Vec<char> = Vec::new();
    let mut m: u64 = n;
    while m >= 10
        invariant
            decimal(n as nat) == decimal(m as nat) + digits@.reverse(),
        decreases m,
    {
        let c: char = digit_to_char(m % 10);
        digits.push(c);
        proof {
            assert(digits@.reverse() =~= seq![c] + digits@.drop_last().reverse());
            assert(decimal(m as nat) == decimal((m / 10) as nat).push(c));
            assert(decimal((m / 10) as nat).push(c) + digits@.drop_last().reverse()
                =~= decimal((m / 10) as nat) + digits@.reverse());
        }
        m = m / 10;
    }
    let c: char = digit_to_char(m);
    digits.push(c);
    proof {
        assert(digits@.reverse() =~= seq![c] + digits@.drop_last().reverse());
    }
    let len = digits.len();
    let mut i: usize = len;
    while i > 0
        invariant
            i <= len == digits@.len(),
            out@ == old(out)@ + digits@.reverse().subrange(0, (len - i) as int),
        decreases i,
    {
        i = i - 1;
        out.push(digits[i]);
        assert(out@ =~= old(out)@ + digits@.reverse().subrange(0, (len - i) as int));
    }
    assert(digits@.reverse().subrange(0, len as int) =~= digits@.reverse());
}

/// The decimal text of `n`, as `n.to_string()` writes it.
pub fn format_decimal(n: u64) -> (res: String)
    ensures
        res@ == decimal(n as nat),
{
    let mut v: Vec<char> = Vec::new();
    push_decimal(&mut v, n);
    assert(v@ =~= decimal(n as nat));
    string_of(&v)
}

} // verus!
