//! Verified text machinery for the store record format: string escaping,
//! decimal numbers, literal matching, and the proofs that parsing inverts
//! encoding.
//!
//! The record format is compact JSON-shaped text.  A string value is written
//! between double quotes with `"` and `\` escaped by a backslash; every other
//! character stands for itself.  A number is written in decimal.  The parsers
//! here consume a prefix of the input and hand back the rest, so larger
//! records compose by concatenation.

use vstd::prelude::*;

verus! {

// ---------------------------------------------------------------------------
// Characters and digits
// ---------------------------------------------------------------------------

/// Decimal digit character for a value below ten.
pub open spec fn digit_char(d: int) -> char
    recommends
        0 <= d < 10,
{
    if d == 0 {
        '0'
    } else if d == 1 {
        '1'
    } else if d == 2 {
        '2'
    } else if d == 3 {
        '3'
    } else if d == 4 {
        '4'
    } else if d == 5 {
        '5'
    } else if d == 6 {
        '6'
    } else if d == 7 {
        '7'
    } else if d == 8 {
        '8'
    } else {
        '9'
    }
}

/// Whether `c` is a decimal digit.
pub open spec fn is_digit(c: char) -> bool {
    c == '0' || c == '1' || c == '2' || c == '3' || c == '4' || c == '5' || c == '6' || c == '7'
        || c == '8' || c == '9'
}

/// Value of a decimal digit character.
pub open spec fn digit_val(c: char) -> int
    recommends
        is_digit(c),
{
    if c == '0' {
        0
    } else if c == '1' {
        1
    } else if c == '2' {
        2
    } else if c == '3' {
        3
    } else if c == '4' {
        4
    } else if c == '5' {
        5
    } else if c == '6' {
        6
    } else if c == '7' {
        7
    } else if c == '8' {
        8
    } else {
        9
    }
}

proof fn lemma_digit_val_of_char(d: int)
    requires
        0 <= d < 10,
    ensures
        digit_val(digit_char(d)) == d,
        is_digit(digit_char(d)),
{
}

// ---------------------------------------------------------------------------
// Decimal rendering of numbers
// ---------------------------------------------------------------------------

/// Decimal rendering of a natural number, most significant digit first.
pub open spec fn dec_digits(n: nat) -> Seq<char>
    decreases n,
{
    if n < 10 {
        seq![digit_char(n as int)]
    } else {
        dec_digits(n / 10) + seq![digit_char((n % 10) as int)]
    }
}

/// The decimal rendering of a number begins with a digit.
pub proof fn lemma_dec_digits_head(n: nat)
    ensures
        dec_digits(n).len() >= 1,
        is_digit(dec_digits(n)[0]),
{
    lemma_dec_digits_all_digits(n);
}

proof fn lemma_dec_digits_all_digits(n: nat)
    ensures
        dec_digits(n).len() >= 1,
        forall|k: int| 0 <= k < dec_digits(n).len() ==> is_digit(#[trigger] dec_digits(n)[k]),
    decreases n,
{
    if n >= 10 {
        lemma_dec_digits_all_digits(n / 10);
    }
}

/// Appends the decimal rendering of `n` to `out`.
pub fn push_u64(out: &mut Vec<char>, n: u64)
    ensures
        final(out)@ == old(out)@ + dec_digits(n as nat),
    decreases n,
{
    if n < 10 {
        out.push(digit_of(n));
    } else {
        push_u64(out, n / 10);
        out.push(digit_of(n % 10));
        proof {
            assert(out@ =~= old(out)@ + dec_digits(n as nat));
        }
    }
}

fn digit_of(d: u64) -> (c: char)
    requires
        d < 10,
    ensures
        c == digit_char(d as int),
{
    if d == 0 {
        '0'
    } else if d == 1 {
        '1'
    } else if d == 2 {
        '2'
    } else if d == 3 {
        '3'
    } else if d == 4 {
        '4'
    } else if d == 5 {
        '5'
    } else if d == 6 {
        '6'
    } else if d == 7 {
        '7'
    } else if d == 8 {
        '8'
    } else {
        '9'
    }
}

// ---------------------------------------------------------------------------
// String escaping
// ---------------------------------------------------------------------------

/// Escaped form of one character inside a quoted string.
pub open spec fn escape_char(c: char) -> Seq<char> {
    if c == '"' || c == '\\' {
        seq!['\\', c]
    } else {
        seq![c]
    }
}

/// Escaped form of a whole string (without the surrounding quotes).
pub open spec fn json_escape(s: Seq<char>) -> Seq<char>
    decreases s.len(),
{
    if s.len() == 0 {
        Seq::empty()
    } else {
        escape_char(s[0]) + json_escape(s.skip(1))
    }
}

/// A quoted string value: opening quote, escaped content, closing quote.
pub open spec fn strlit(s: Seq<char>) -> Seq<char> {
    seq!['"'] + json_escape(s) + seq!['"']
}

proof fn lemma_escape_snoc(s: Seq<char>, c: char)
    ensures
        json_escape(s.push(c)) == json_escape(s) + escape_char(c),
    decreases s.len(),
{
    if s.len() == 0 {
        assert(s.push(c)[0] == c);
        assert(s.push(c).skip(1) =~= Seq::<char>::empty());
        assert(json_escape(s.push(c)) == escape_char(c) + json_escape(Seq::<char>::empty()));
        assert(json_escape(s.push(c)) =~= json_escape(s) + escape_char(c));
    } else {
        assert(s.push(c)[0] == s[0]);
        assert(s.push(c).skip(1) =~= s.skip(1).push(c));
        lemma_escape_snoc(s.skip(1), c);
        assert(json_escape(s.push(c)) == escape_char(s[0]) + (json_escape(s.skip(1))
            + escape_char(c)));
        assert(json_escape(s.push(c)) =~= json_escape(s) + escape_char(c));
    }
}

/// Appends the raw characters of `s` to `out`.
pub fn push_str_chars(out: &mut Vec<char>, s: &str)
    ensures
        final(out)@ == old(out)@ + s@,
{
    let n: usize = s.unicode_len();
    let mut i: usize = 0;
    while i < n
        invariant
            n == s@.len(),
            i <= n,
            out@ == old(out)@ + s@.subrange(0, i as int),
        decreases n - i,
    {
        out.push(s.get_char(i));
        i = i + 1;
        proof {
            assert(out@ =~= old(out)@ + s@.subrange(0, i as int));
        }
    }
    proof {
        assert(s@.subrange(0, n as int) =~= s@);
    }
}

/// Appends the escaped form of `s` to `out`.
pub fn push_escaped(out: &mut Vec<char>, s: &str)
    ensures
        final(out)@ == old(out)@ + json_escape(s@),
{
    let n: usize = s.unicode_len();
    let mut i: usize = 0;
    while i < n
        invariant
            n == s@.len(),
            i <= n,
            out@ == old(out)@ + json_escape(s@.subrange(0, i as int)),
        decreases n - i,
    {
        let c: char = s.get_char(i);
        if c == '"' || c == '\\' {
            out.push('\\');
            out.push(c);
        } else {
            out.push(c);
        }
        proof {
            let pre = s@.subrange(0, i as int);
            assert(s@.subrange(0, i + 1 as int) =~= pre.push(c));
            lemma_escape_snoc(pre, c);
            assert(out@ =~= old(out)@ + json_escape(s@.subrange(0, i + 1 as int)));
        }
        i = i + 1;
    }
    proof {
        assert(s@.subrange(0, n as int) =~= s@);
    }
}

/// Appends a quoted string value for `s` to `out`.
pub fn push_strlit(out: &mut Vec<char>, s: &str)
    ensures
        final(out)@ == old(out)@ + strlit(s@),
{
    out.push('"');
    push_escaped(out, s);
    out.push('"');
    proof {
        assert(out@ =~= old(out)@ + strlit(s@));
    }
}

// ---------------------------------------------------------------------------
// Parsing: literals
// ---------------------------------------------------------------------------

/// Consumes `lit` from the front of `s`, or fails.
pub open spec fn spec_parse_lit(s: Seq<char>, lit: Seq<char>) -> Option<Seq<char>> {
    if s.len() >= lit.len() && s.subrange(0, lit.len() as int) == lit {
        Some(s.skip(lit.len() as int))
    } else {
        None
    }
}

pub proof fn lemma_parse_lit_inv(lit: Seq<char>, rest: Seq<char>)
    ensures
        spec_parse_lit(lit + rest, lit) == Some(rest),
{
    assert((lit + rest).subrange(0, lit.len() as int) =~= lit);
    assert((lit + rest).skip(lit.len() as int) =~= rest);
}

/// Matches the literal `lit` at position `i` of `v`.
pub fn parse_lit(v: &Vec<char>, i: usize, lit: &str) -> (r: Option<usize>)
    requires
        i <= v@.len(),
    ensures
        match r {
            Some(j) => {
                &&& i <= j <= v@.len()
                &&& spec_parse_lit(v@.skip(i as int), lit@) == Some(v@.skip(j as int))
            },
            None => spec_parse_lit(v@.skip(i as int), lit@) is None,
        },
{
    let n: usize = lit.unicode_len();
    if v.len() - i < n {
        assert(spec_parse_lit(v@.skip(i as int), lit@) is None);
        return None;
    }
    let vn: usize = v.len();
    let mut k: usize = 0;
    while k < n
        invariant
            vn == v@.len(),
            i + n <= v@.len(),
            n == lit@.len(),
            k <= n,
            v@.subrange(i as int, i + k as int) == lit@.subrange(0, k as int),
        decreases n - k,
    {
        assert(i + k < vn);
        let idx: usize = i + k;
        if v[idx] != lit.get_char(k) {
            proof {
                let s = v@.skip(i as int);
                assert(s[k as int] == v@[i + k]);
                assert(s.len() >= lit@.len());
                assert(s.subrange(0, lit@.len() as int)[k as int] != lit@[k as int]);
            }
            return None;
        }
        k = k + 1;
        proof {
            assert(v@.subrange(i as int, i + k as int) =~= lit@.subrange(0, k as int));
        }
    }
    proof {
        let s = v@.skip(i as int);
        assert(s.subrange(0, n as int) =~= v@.subrange(i as int, i + n as int));
        assert(lit@.subrange(0, n as int) =~= lit@);
        assert(s.skip(n as int) =~= v@.skip(i + n as int));
    }
    Some(i + n)
}

// ---------------------------------------------------------------------------
// Parsing: quoted strings
// ---------------------------------------------------------------------------

/// Consumes the escaped content and closing quote of a string whose opening
/// quote has already been consumed; yields the unescaped content and the rest.
pub open spec fn spec_parse_strtail(s: Seq<char>) -> Option<(Seq<char>, Seq<char>)>
    decreases s.len(),
{
    if s.len() == 0 {
        None
    } else if s[0] == '"' {
        Some((Seq::empty(), s.skip(1)))
    } else if s[0] == '\\' {
        if s.len() < 2 || !(s[1] == '"' || s[1] == '\\') {
            None
        } else {
            match spec_parse_strtail(s.skip(2)) {
                Some((content, rest)) => Some((seq![s[1]] + content, rest)),
                None => None,
            }
        }
    } else {
        match spec_parse_strtail(s.skip(1)) {
            Some((content, rest)) => Some((seq![s[0]] + content, rest)),
            None => None,
        }
    }
}

/// Consumes a whole quoted string value from the front of `s`.
pub open spec fn spec_parse_string(s: Seq<char>) -> Option<(Seq<char>, Seq<char>)> {
    if s.len() >= 1 && s[0] == '"' {
        spec_parse_strtail(s.skip(1))
    } else {
        None
    }
}

proof fn lemma_parse_strtail_inv(content: Seq<char>, rest: Seq<char>)
    ensures
        spec_parse_strtail(json_escape(content) + seq!['"'] + rest) == Some((content, rest)),
    decreases content.len(),
{
    let s = json_escape(content) + seq!['"'] + rest;
    if content.len() == 0 {
        assert(s[0] == '"');
        assert(s.skip(1) =~= rest);
    } else {
        let c = content[0];
        let tail = content.skip(1);
        lemma_parse_strtail_inv(tail, rest);
        if c == '"' || c == '\\' {
            assert(s[0] == '\\');
            assert(s[1] == c);
            assert(s.skip(2) =~= json_escape(tail) + seq!['"'] + rest);
            assert(seq![c] + tail =~= content);
        } else {
            assert(s[0] == c);
            assert(s.skip(1) =~= json_escape(tail) + seq!['"'] + rest);
            assert(seq![c] + tail =~= content);
        }
    }
}

/// Parsing a quoted string value written by the encoder yields the original
/// content and leaves exactly the trailing input.
pub proof fn lemma_parse_string_inv(content: Seq<char>, rest: Seq<char>)
    ensures
        spec_parse_string(strlit(content) + rest) == Some((content, rest)),
{
    let s = strlit(content) + rest;
    assert(s[0] == '"');
    assert(s.skip(1) =~= json_escape(content) + seq!['"'] + rest);
    lemma_parse_strtail_inv(content, rest);
}

proof fn lemma_parse_strtail_consumes(s: Seq<char>)
    ensures
        spec_parse_strtail(s) matches Some((x, r)) ==> r.len() < s.len(),
    decreases s.len(),
{
    if s.len() > 0 && s[0] != '"' {
        if s[0] == '\\' {
            if s.len() >= 2 && (s[1] == '"' || s[1] == '\\') {
                lemma_parse_strtail_consumes(s.skip(2));
            }
        } else {
            lemma_parse_strtail_consumes(s.skip(1));
        }
    }
}

/// A successful string parse consumes at least the two quotes.
pub proof fn lemma_parse_string_consumes(s: Seq<char>)
    ensures
        spec_parse_string(s) matches Some((x, r)) ==> r.len() < s.len(),
{
    if s.len() >= 1 && s[0] == '"' {
        lemma_parse_strtail_consumes(s.skip(1));
    }
}

/// Parses the content and closing quote of a string at position `i`, the
/// opening quote having been consumed already.
fn parse_strtail(v: &Vec<char>, i: usize) -> (r: Option<(Vec<char>, usize)>)
    requires
        i <= v@.len(),
    ensures
        match r {
            Some((content, j)) => {
                &&& i <= j <= v@.len()
                &&& spec_parse_strtail(v@.skip(i as int)) == Some((content@, v@.skip(j as int)))
            },
            None => spec_parse_strtail(v@.skip(i as int)) is None,
        },
    decreases v@.len() - i,
{
    if i == v.len() {
        return None;
    }
    let c: char = v[i];
    if c == '"' {
        let content: Vec<char> = Vec::new();
        proof {
            assert(v@.skip(i as int).skip(1) =~= v@.skip(i + 1 as int));
        }
        return Some((content, i + 1));
    }
    if c == '\\' {
        if v.len() - i < 2 {
            return None;
        }
        let e: char = v[i + 1];
        if !(e == '"' || e == '\\') {
            return None;
        }
        proof {
            assert(v@.skip(i as int)[1] == e);
            assert(v@.skip(i as int).skip(2) =~= v@.skip(i + 2 as int));
        }
        match parse_strtail(v, i + 2) {
            Some((tail, j)) => {
                let mut content: Vec<char> = tail;
                content.insert(0, e);
                proof {
                    assert(content@ =~= seq![e] + content@.skip(1));
                }
                return Some((content, j));
            },
            None => {
                return None;
            },
        }
    }
    proof {
        assert(v@.skip(i as int).skip(1) =~= v@.skip(i + 1 as int));
    }
    match parse_strtail(v, i + 1) {
        Some((tail, j)) => {
            let mut content: Vec<char> = tail;
            content.insert(0, c);
            proof {
                assert(content@ =~= seq![c] + content@.skip(1));
            }
            Some((content, j))
        },
        None => None,
    }
}

/// Parses a quoted string value at position `i` of `v`.
pub fn parse_string(v: &Vec<char>, i: usize) -> (r: Option<(Vec<char>, usize)>)
    requires
        i <= v@.len(),
    ensures
        match r {
            Some((content, j)) => {
                &&& i <= j <= v@.len()
                &&& spec_parse_string(v@.skip(i as int)) == Some((content@, v@.skip(j as int)))
            },
            None => spec_parse_string(v@.skip(i as int)) is None,
        },
{
    if i == v.len() || v[i] != '"' {
        return None;
    }
    proof {
        assert(v@.skip(i as int).skip(1) =~= v@.skip(i + 1 as int));
    }
    parse_strtail(v, i + 1)
}

// ---------------------------------------------------------------------------
// Parsing: numbers
// ---------------------------------------------------------------------------

/// Value of a maximal run of digits at the front of `s`, together with the
/// rest of the input; the run must be non-empty.
pub open spec fn spec_digit_run(s: Seq<char>, acc: nat) -> (nat, Seq<char>)
    decreases s.len(),
{
    if s.len() > 0 && is_digit(s[0]) {
        spec_digit_run(s.skip(1), acc * 10 + digit_val(s[0]) as nat)
    } else {
        (acc, s)
    }
}

/// Consumes a decimal number that fits in a `u64` from the front of `s`.
pub open spec fn spec_parse_u64(s: Seq<char>) -> Option<(u64, Seq<char>)> {
    if s.len() == 0 || !is_digit(s[0]) {
        None
    } else {
        let (value, rest) = spec_digit_run(s, 0);
        if value <= u64::MAX {
            Some((value as u64, rest))
        } else {
            None
        }
    }
}

/// Ten to the power of the digit count of `n`.
spec fn run_shift(n: nat) -> nat
    decreases n,
{
    if n < 10 {
        10
    } else {
        10 * run_shift(n / 10)
    }
}

proof fn lemma_digit_run_of_digits(n: nat, acc: nat)
    ensures
        spec_digit_run(dec_digits(n), acc) == (((acc * run_shift(n) + n) as nat, Seq::<
            char,
        >::empty())),
    decreases n,
{
    lemma_dec_digits_all_digits(n);
    if n < 10 {
        let s = dec_digits(n);
        assert(s[0] == digit_char(n as int));
        lemma_digit_val_of_char(n as int);
        assert(s.skip(1) =~= Seq::<char>::empty());
        assert(spec_digit_run(s, acc) == spec_digit_run(Seq::<char>::empty(), acc * 10 + n));
    } else {
        let d: nat = n % 10;
        let hi: nat = n / 10;
        let one = seq![digit_char(d as int)];
        assert(dec_digits(n) =~= dec_digits(hi) + one);
        lemma_dec_digits_all_digits(hi);
        lemma_digit_run_split(dec_digits(hi), one, acc);
        lemma_digit_run_of_digits(hi, acc);
        let v1: nat = (acc * run_shift(hi) + hi) as nat;
        lemma_digit_val_of_char(d as int);
        assert(one.skip(1) =~= Seq::<char>::empty());
        assert(spec_digit_run(one, v1) == spec_digit_run(Seq::<char>::empty(), v1 * 10 + d));
        assert(v1 * 10 + d == acc * run_shift(n) + n) by (nonlinear_arith)
            requires
                v1 == acc * run_shift(hi) + hi,
                run_shift(n) == 10 * run_shift(hi),
                n == hi * 10 + d,
                d < 10,
        ;
    }
}

proof fn lemma_digit_run_split(a: Seq<char>, b: Seq<char>, acc: nat)
    requires
        forall|k: int| 0 <= k < a.len() ==> is_digit(#[trigger] a[k]),
    ensures
        spec_digit_run(a + b, acc) == spec_digit_run(b, spec_digit_run(a, acc).0),
    decreases a.len(),
{
    if a.len() == 0 {
        assert(a + b =~= b);
        assert(spec_digit_run(a, acc).0 == acc);
    } else {
        let s = a + b;
        assert(s[0] == a[0]);
        assert(s.skip(1) =~= a.skip(1) + b);
        lemma_digit_run_split(a.skip(1), b, acc * 10 + digit_val(a[0]) as nat);
        assert(spec_digit_run(a, acc) == spec_digit_run(a.skip(1), acc * 10 + digit_val(a[0]) as nat));
    }
}

/// Parsing the decimal rendering of `n` yields `n` and leaves exactly the
/// trailing input, provided the trailing input does not begin with a digit.
pub proof fn lemma_parse_u64_inv(n: u64, rest: Seq<char>)
    requires
        rest.len() == 0 || !is_digit(rest[0]),
    ensures
        spec_parse_u64(dec_digits(n as nat) + rest) == Some((n, rest)),
{
    let s = dec_digits(n as nat) + rest;
    lemma_dec_digits_all_digits(n as nat);
    assert(s[0] == dec_digits(n as nat)[0]);
    lemma_digit_run_split(dec_digits(n as nat), rest, 0);
    lemma_digit_run_of_digits(n as nat, 0);
    assert(spec_digit_run(dec_digits(n as nat), 0).0 == n as nat);
    assert(spec_digit_run(rest, n as nat) == (n as nat, rest));
}

/// Parses a decimal `u64` at position `i` of `v`.
pub fn parse_u64(v: &Vec<char>, i: usize) -> (r: Option<(u64, usize)>)
    requires
        i <= v@.len(),
    ensures
        match r {
            Some((value, j)) => {
                &&& i <= j <= v@.len()
                &&& spec_parse_u64(v@.skip(i as int)) == Some((value, v@.skip(j as int)))
            },
            None => spec_parse_u64(v@.skip(i as int)) is None,
        },
{
    if i == v.len() || !char_is_digit(v[i]) {
        return None;
    }
    let mut j: usize = i;
    let mut acc: u128 = 0;
    let mut too_big: bool = false;
    let ghost s = v@.skip(i as int);
    while j < v.len() && char_is_digit(v[j])
        invariant
            i <= j <= v@.len(),
            s == v@.skip(i as int),
            spec_digit_run(s, 0) == spec_digit_run(v@.skip(j as int), spec_digit_run_value(s, j - i)),
            too_big <==> spec_digit_run_value(s, j - i) > u64::MAX,
            !too_big ==> acc == spec_digit_run_value(s, j - i),
            too_big ==> acc > u64::MAX,
            acc <= 0xFFFF_FFFF_FFFF_FFFFu128 * 16,
        decreases v@.len() - j,
    {
        let d: u64 = digit_value(v[j]);
        proof {
            assert(v@.skip(j as int)[0] == v@[j as int]);
            assert(v@.skip(j as int).skip(1) =~= v@.skip(j + 1 as int));
            assert(spec_digit_run(v@.skip(j as int), spec_digit_run_value(s, j - i))
                == spec_digit_run(
                v@.skip(j + 1 as int),
                spec_digit_run_value(s, j - i) * 10 + digit_val(v@[j as int]) as nat,
            ));
            lemma_digit_run_value_step(s, j - i);
        }
        if too_big {
            proof {
                assert(spec_digit_run_value(s, j + 1 - i) > u64::MAX) by (nonlinear_arith)
                    requires
                        spec_digit_run_value(s, j + 1 - i) == spec_digit_run_value(s, j - i) * 10
                            + digit_val(s[j - i]) as nat,
                        spec_digit_run_value(s, j - i) > u64::MAX,
                ;
            }
        } else {
            acc = acc * 10 + (d as u128);
            if acc > u64::MAX as u128 {
                too_big = true;
            }
        }
        j = j + 1;
    }
    proof {
        let tail = v@.skip(j as int);
        assert(tail.len() == 0 || !is_digit(tail[0]));
        assert(spec_digit_run(tail, spec_digit_run_value(s, j - i)) == (
            spec_digit_run_value(s, j - i),
            tail,
        ));
    }
    if too_big {
        None
    } else {
        Some((acc as u64, j))
    }
}

/// Value accumulated after consuming the first `k` characters of a digit run.
pub open spec fn spec_digit_run_value(s: Seq<char>, k: int) -> nat
    decreases k,
{
    if k <= 0 {
        0
    } else {
        spec_digit_run_value(s, k - 1) * 10 + digit_val(s[k - 1]) as nat
    }
}

proof fn lemma_digit_run_value_step(s: Seq<char>, k: int)
    requires
        k >= 0,
    ensures
        spec_digit_run_value(s, k + 1) == spec_digit_run_value(s, k) * 10 + digit_val(s[k]) as nat,
{
}

fn char_is_digit(c: char) -> (r: bool)
    ensures
        r == is_digit(c),
{
    c == '0' || c == '1' || c == '2' || c == '3' || c == '4' || c == '5' || c == '6' || c == '7'
        || c == '8' || c == '9'
}

fn digit_value(c: char) -> (r: u64)
    requires
        is_digit(c),
    ensures
        r == digit_val(c),
{
    if c == '0' {
        0
    } else if c == '1' {
        1
    } else if c == '2' {
        2
    } else if c == '3' {
        3
    } else if c == '4' {
        4
    } else if c == '5' {
        5
    } else if c == '6' {
        6
    } else if c == '7' {
        7
    } else if c == '8' {
        8
    } else {
        9
    }
}

// ---------------------------------------------------------------------------
// Conversions between strings and character vectors
// ---------------------------------------------------------------------------

/// The characters of `s`, in order.
pub fn str_to_chars(s: &str) -> (r: Vec<char>)
    ensures
        r@ == s@,
{
    let n: usize = s.unicode_len();
    let mut r: Vec<char> = Vec::new();
    let mut i: usize = 0;
    while i < n
        invariant
            n == s@.len(),
            i <= n,
            r@ == s@.subrange(0, i as int),
        decreases n - i,
    {
        r.push(s.get_char(i));
        i = i + 1;
        proof {
            assert(r@ =~= s@.subrange(0, i as int));
        }
    }
    proof {
        assert(s@.subrange(0, n as int) =~= s@);
    }
    r
}

/// The decimal rendering of `n` as a string.
pub fn u64_string(n: u64) -> (r: String)
    ensures
        r@ == dec_digits(n as nat),
{
    let mut out: Vec<char> = Vec::new();
    push_u64(&mut out, n);
    proof {
        assert(out@ =~= dec_digits(n as nat));
    }
    chars_to_string(&out)
}

/// Whether two string slices hold the same characters.
pub fn str_eq(a: &str, b: &str) -> (r: bool)
    ensures
        r == (a@ == b@),
{
    let n: usize = a.unicode_len();
    if b.unicode_len() != n {
        return false;
    }
    let mut k: usize = 0;
    while k < n
        invariant
            n == a@.len(),
            n == b@.len(),
            k <= n,
            a@.subrange(0, k as int) == b@.subrange(0, k as int),
        decreases n - k,
    {
        if a.get_char(k) != b.get_char(k) {
            proof {
                assert(a@[k as int] != b@[k as int]);
            }
            return false;
        }
        k = k + 1;
        proof {
            assert(a@.subrange(0, k as int) =~= b@.subrange(0, k as int));
        }
    }
    proof {
        assert(a@ =~= a@.subrange(0, n as int));
        assert(b@ =~= b@.subrange(0, n as int));
    }
    true
}

/// Whether the characters of `v` spell exactly `lit`.
pub fn chars_eq_lit(v: &Vec<char>, lit: &str) -> (r: bool)
    ensures
        r == (v@ == lit@),
{
    let n: usize = lit.unicode_len();
    if v.len() != n {
        return false;
    }
    let mut k: usize = 0;
    while k < n
        invariant
            n == lit@.len(),
            n == v@.len(),
            k <= n,
            v@.subrange(0, k as int) == lit@.subrange(0, k as int),
        decreases n - k,
    {
        if v[k] != lit.get_char(k) {
            proof {
                assert(v@[k as int] != lit@[k as int]);
            }
            return false;
        }
        k = k + 1;
        proof {
            assert(v@.subrange(0, k as int) =~= lit@.subrange(0, k as int));
        }
    }
    proof {
        assert(v@ =~= v@.subrange(0, n as int));
        assert(lit@ =~= lit@.subrange(0, n as int));
    }
    true
}

/// Relies on `String`'s `FromIterator` over `char`: collecting characters
/// builds the string holding exactly those characters in order.
#[verifier::external_body]
pub fn chars_to_string(v: &Vec<char>) -> (r: String)
    ensures
        r@ == v@,
{
    v.iter().collect()
}

} // verus!
