//! Character-level primitives: building strings, decimal formatting and
//! parsing, whitespace trimming.  Everything here is stated over `Seq<char>`.

use vstd::prelude::*;
use vstd::string::StrSliceExecFns;

verus! {

/// The characters this library treats as blanks (spacing).
pub open spec fn is_blank(c: char) -> bool {
    c == ' ' || c == '\t' || c == '\n' || c == '\r'
}

/// Executable test for `is_blank`.
pub fn blank(c: char) -> (r: bool)
    ensures
        r == is_blank(c),
{
    c == ' ' || c == '\t' || c == '\n' || c == '\r'
}

/// Relies on `String::push`: appends one character to the string.
#[verifier::external_body]
fn push_char(s: &mut String, c: char)
    ensures
        final(s)@ == old(s)@.push(c),
{
    s.push(c);
}

/// The `String` whose characters are exactly `v`.
pub fn chars_to_string(v: &Vec<char>) -> (r: String)
    ensures
        r@ == v@,
{
    let mut r = String::new();
    let mut i: usize = 0;
    while i < v.len()
        invariant
            i <= v.len(),
            r@ == v@.take(i as int),
        decreases v.len() - i,
    {
        push_char(&mut r, v[i]);
        proof {
            assert(v@.take(i as int).push(v@[i as int]) =~= v@.take(i + 1));
        }
        i += 1;
    }
    proof {
        assert(v@.take(v@.len() as int) =~= v@);
    }
    r
}

/// The characters of `s`, one vector entry per char.
pub fn str_to_chars(s: &str) -> (r: Vec<char>)
    ensures
        r@ == s@,
{
    let n = s.unicode_len();
    let mut r: Vec<char> = Vec::new();
    let mut i: usize = 0;
    while i < n
        invariant
            i <= n,
            n == s@.len(),
            r@ == s@.take(i as int),
        decreases n - i,
    {
        r.push(s.get_char(i));
        proof {
            assert(s@.take(i as int).push(s@[i as int]) =~= s@.take(i + 1));
        }
        i += 1;
    }
    proof {
        assert(s@.take(s@.len() as int) =~= s@);
    }
    r
}

/// Appends the characters of `s` to `dst`.
pub fn push_str_chars(dst: &mut Vec<char>, s: &str)
    ensures
        final(dst)@ == old(dst)@ + s@,
{
    let n = s.unicode_len();
    let mut i: usize = 0;
    while i < n
        invariant
            i <= n,
            n == s@.len(),
            dst@ == old(dst)@ + s@.take(i as int),
        decreases n - i,
    {
        dst.push(s.get_char(i));
        proof {
            assert((old(dst)@ + s@.take(i as int)).push(s@[i as int]) =~= old(dst)@ + s@.take(
                i + 1,
            ));
        }
        i += 1;
    }
    proof {
        assert(s@.take(s@.len() as int) =~= s@);
    }
}

/// Whether the characters of `a` and `b` are the same sequence.
pub fn str_eq(a: &str, b: &str) -> (r: bool)
    ensures
        r == (a@ == b@),
{
    let na = a.unicode_len();
    let nb = b.unicode_len();
    if na != nb {
        return false;
    }
    let mut i: usize = 0;
    while i < na
        invariant
            i <= na,
            na == a@.len(),
            na == b@.len(),
            forall|j: int| 0 <= j < i ==> a@[j] == b@[j],
        decreases na - i,
    {
        if a.get_char(i) != b.get_char(i) {
            return false;
        }
        i += 1;
    }
    proof {
        assert(a@ =~= b@);
    }
    true
}

/// The decimal digit character for `n` (which must be below ten).
pub open spec fn dec_digit(n: nat) -> char {
    if n == 0 { '0' }
    else if n == 1 { '1' }
    else if n == 2 { '2' }
    else if n == 3 { '3' }
    else if n == 4 { '4' }
    else if n == 5 { '5' }
    else if n == 6 { '6' }
    else if n == 7 { '7' }
    else if n == 8 { '8' }
    else if n == 9 { '9' }
    else { '?' }
}

/// The decimal rendering of `n`, most significant digit first, no sign and
/// no leading zeros (`0` renders as `"0"`).
pub open spec fn dec_seq(n: nat) -> Seq<char>
    decreases n,
{
    if n < 10 {
        seq![dec_digit(n)]
    } else {
        dec_seq(n / 10).push(dec_digit(n % 10))
    }
}

fn digit_char(d: u64) -> (c: char)
    requires
        d < 10,
    ensures
        c == dec_digit(d as nat),
{
    if d == 0 { '0' }
    else if d == 1 { '1' }
    else if d == 2 { '2' }
    else if d == 3 { '3' }
    else if d == 4 { '4' }
    else if d == 5 { '5' }
    else if d == 6 { '6' }
    else if d == 7 { '7' }
    else if d == 8 { '8' }
    else { '9' }
}

/// Appends the decimal rendering of `n` to `dst`.
pub fn push_dec(dst: &mut Vec<char>, n: u64)
    ensures
        final(dst)@ == old(dst)@ + dec_seq(n as nat),
    decreases n,
{
    if n < 10 {
        dst.push(digit_char(n));
        proof {
            assert(old(dst)@.push(dec_digit(n as nat)) =~= old(dst)@ + dec_seq(n as nat));
        }
    } else {
        push_dec(dst, n / 10);
        dst.push(digit_char(n % 10));
        proof {
            assert((old(dst)@ + dec_seq((n / 10) as nat)).push(dec_digit((n % 10) as nat))
                =~= old(dst)@ + dec_seq(n as nat));
        }
    }
}

/// Whether `c` is a decimal digit.
pub open spec fn is_dec_digit(c: char) -> bool {
    '0' <= c && c <= '9'
}

/// The numeric value of digit character `c`.
pub open spec fn digit_val(c: char) -> nat {
    (c as nat - 48) as nat
}

/// Whether every character of `s` is a decimal digit.
pub open spec fn all_dec_digits(s: Seq<char>) -> bool {
    forall|i: int| 0 <= i < s.len() ==> is_dec_digit(#[trigger] s[i])
}

/// The numeric value of the digit string `s` (zero when empty).
pub open spec fn dec_val(s: Seq<char>) -> nat
    decreases s.len(),
{
    if s.len() == 0 {
        0
    } else {
        dec_val(s.drop_last()) * 10 + digit_val(s.last())
    }
}

proof fn lemma_dec_val_take_step(s: Seq<char>, j: int)
    requires
        0 <= j < s.len(),
    ensures
        dec_val(s.take(j)) <= dec_val(s.take(j + 1)),
{
    assert(s.take(j + 1).drop_last() =~= s.take(j));
}

proof fn lemma_dec_val_take_mono(s: Seq<char>, j: int)
    requires
        0 <= j <= s.len(),
    ensures
        dec_val(s.take(j)) <= dec_val(s),
    decreases s.len() - j,
{
    if j == s.len() {
        assert(s.take(j) =~= s);
    } else {
        lemma_dec_val_take_step(s, j);
        lemma_dec_val_take_mono(s, j + 1);
    }
}

/// Reads `v` as an unsigned decimal number that fits in a byte.  Returns the
/// value exactly when `v` is nonempty, all digits, and at most 255.
pub fn parse_u8_chars(v: &Vec<char>) -> (r: Option<u8>)
    ensures
        r is Some <==> v@.len() > 0 && all_dec_digits(v@) && dec_val(v@) <= 255,
        r is Some ==> r->0 == dec_val(v@),
{
    if v.len() == 0 {
        return None;
    }
    let mut acc: u32 = 0;
    let mut i: usize = 0;
    while i < v.len()
        invariant
            0 < v@.len(),
            i <= v.len(),
            acc <= 255,
            acc == dec_val(v@.take(i as int)),
            forall|j: int| 0 <= j < i ==> is_dec_digit(#[trigger] v@[j]),
        decreases v.len() - i,
    {
        let c = v[i];
        if !('0' <= c && c <= '9') {
            return None;
        }
        let d: u32 = (c as u32) - 48;
        let next: u32 = acc * 10 + d;
        proof {
            assert(v@.take(i + 1).drop_last() =~= v@.take(i as int));
        }
        if next > 255 {
            proof {
                lemma_dec_val_take_mono(v@, i + 1);
                assert(v@.take(v@.len() as int) =~= v@);
            }
            return None;
        }
        acc = next;
        i += 1;
    }
    proof {
        assert(v@.take(v@.len() as int) =~= v@);
    }
    Some(acc as u8)
}

/// Reads `s` as an unsigned decimal number that fits in a byte.
pub fn parse_u8(s: &str) -> (r: Option<u8>)
    ensures
        r is Some <==> s@.len() > 0 && all_dec_digits(s@) && dec_val(s@) <= 255,
        r is Some ==> r->0 == dec_val(s@),
{
    let v = str_to_chars(s);
    parse_u8_chars(&v)
}

/// `s` with its leading blanks removed.
pub open spec fn trim_front(s: Seq<char>) -> Seq<char>
    decreases s.len(),
{
    if s.len() > 0 && is_blank(s[0]) {
        trim_front(s.skip(1))
    } else {
        s
    }
}

/// `s` with its trailing blanks removed.
pub open spec fn trim_back(s: Seq<char>) -> Seq<char>
    decreases s.len(),
{
    if s.len() > 0 && is_blank(s.last()) {
        trim_back(s.drop_last())
    } else {
        s
    }
}

/// `s` with blanks removed from both ends.
pub open spec fn trimmed(s: Seq<char>) -> Seq<char> {
    trim_back(trim_front(s))
}

/// A committed input value: blanks stripped from both ends, then one
/// trailing comma (if any) dropped.
pub open spec fn format_input_spec(s: Seq<char>) -> Seq<char> {
    let t = trimmed(s);
    if t.len() > 0 && t.last() == ',' {
        t.drop_last()
    } else {
        t
    }
}

proof fn lemma_trim_front_skip(s: Seq<char>, k: int)
    requires
        0 <= k <= s.len(),
        forall|i: int| 0 <= i < k ==> is_blank(#[trigger] s[i]),
        k == s.len() || !is_blank(s[k]),
    ensures
        trim_front(s) == s.skip(k),
    decreases k,
{
    if k == 0 {
        assert(s.skip(0) =~= s);
    } else {
        lemma_trim_front_skip(s.skip(1), k - 1);
        assert(s.skip(1).skip(k - 1) =~= s.skip(k));
    }
}

proof fn lemma_trim_back_take(s: Seq<char>, k: int)
    requires
        0 <= k <= s.len(),
        forall|i: int| k <= i < s.len() ==> is_blank(#[trigger] s[i]),
        k == 0 || !is_blank(s[k - 1]),
    ensures
        trim_back(s) == s.take(k),
    decreases s.len(),
{
    if k == s.len() {
        assert(s.take(k) =~= s);
    } else {
        assert(is_blank(s.last()));
        lemma_trim_back_take(s.drop_last(), k);
        assert(s.drop_last().take(k) =~= s.take(k));
    }
}

/// Normalizes a committed input line: trims blanks at both ends, then drops
/// a single trailing comma if one remains.
pub fn format_input(input: &str) -> (r: String)
    ensures
        r@ == format_input_spec(input@),
{
    let n = input.unicode_len();
    let mut lo: usize = 0;
    while lo < n && blank(input.get_char(lo))
        invariant
            lo <= n,
            n == input@.len(),
            forall|i: int| 0 <= i < lo ==> is_blank(#[trigger] input@[i]),
        decreases n - lo,
    {
        lo += 1;
    }
    let mut hi: usize = n;
    while hi > lo && blank(input.get_char(hi - 1))
        invariant
            lo <= hi <= n,
            n == input@.len(),
            forall|i: int| hi <= i < n ==> is_blank(#[trigger] input@[i]),
        decreases hi,
    {
        hi -= 1;
    }
    proof {
        lemma_trim_front_skip(input@, lo as int);
        lemma_trim_back_take(input@.skip(lo as int), hi - lo);
        assert(input@.skip(lo as int).take(hi - lo) =~= input@.subrange(lo as int, hi as int));
    }
    let end: usize = if hi > lo && input.get_char(hi - 1) == ',' {
        proof {
            assert(input@.subrange(lo as int, hi as int).drop_last()
                =~= input@.subrange(lo as int, hi - 1));
        }
        hi - 1
    } else {
        hi
    };
    input.substring_char(lo, end).to_owned()
}

} // verus!
