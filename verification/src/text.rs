//! Decimal text: the rules for reading and writing `i32` values as the
//! editor's input buffers hold them, and the few string operations the
//! editor needs.

use vstd::prelude::*;

verus! {

/// `c` is one of the ASCII digits `0`..`9`.
pub open spec fn is_digit(c: char) -> bool {
    '0' as u32 <= c as u32 && c as u32 <= '9' as u32
}

/// The numeric value of an ASCII digit.
pub open spec fn digit_value(c: char) -> int {
    c as u32 - '0' as u32
}

/// The character that writes the digit `d` (for `0 <= d < 10`).
pub open spec fn digit_char(d: int) -> char {
    ('0' as u32 + d) as char
}

/// Every character of `s` is an ASCII digit.
pub open spec fn all_digits(s: Seq<char>) -> bool {
    forall|i: int| 0 <= i < s.len() ==> is_digit(#[trigger] s[i])
}

/// Every character of `s` is ASCII.
pub open spec fn all_ascii(s: Seq<char>) -> bool {
    vstd::utf8::is_ascii_chars(s)
}

/// The value of a string of decimal digits, most significant first.
pub open spec fn digits_value(s: Seq<char>) -> int
    decreases s.len(),
{
    if s.len() == 0 {
        0
    } else {
        digits_value(s.drop_last()) * 10 + digit_value(s.last())
    }
}

/// What `str::parse::<i32>` gives for the text `s`: an optional `+` or `-`,
/// then one or more ASCII digits whose signed value fits in an `i32`.
pub open spec fn parse_i32_spec(s: Seq<char>) -> Option<i32> {
    let neg = s.len() > 0 && s[0] == '-';
    let body = if s.len() > 0 && (s[0] == '-' || s[0] == '+') {
        s.drop_first()
    } else {
        s
    };
    let v = if neg {
        -digits_value(body)
    } else {
        digits_value(body)
    };
    if body.len() > 0 && all_digits(body) && i32::MIN <= v <= i32::MAX {
        Some(v as i32)
    } else {
        None
    }
}

/// The decimal digits of a natural number, without leading zeros.
pub open spec fn nat_digits(n: nat) -> Seq<char>
    decreases n,
{
    if n < 10 {
        seq![digit_char(n as int)]
    } else {
        nat_digits(n / 10).push(digit_char((n % 10) as int))
    }
}

/// The decimal text of an integer, as `i32::to_string` writes it.
pub open spec fn int_decimal(v: int) -> Seq<char> {
    if v < 0 {
        seq!['-'] + nat_digits((-v) as nat)
    } else {
        nat_digits(v as nat)
    }
}

pub proof fn lemma_digits_value_nonneg(s: Seq<char>)
    requires
        all_digits(s),
    ensures
        digits_value(s) >= 0,
    decreases s.len(),
{
    if s.len() > 0 {
        assert(is_digit(s[s.len() - 1]));
        lemma_digits_value_nonneg(s.drop_last());
    }
}

proof fn lemma_nat_digits(n: nat)
    ensures
        nat_digits(n).len() > 0,
        all_digits(nat_digits(n)),
        all_ascii(nat_digits(n)),
        digits_value(nat_digits(n)) == n,
    decreases n,
{
    if n < 10 {
        let s = nat_digits(n);
        assert(s.drop_last() =~= Seq::<char>::empty());
        assert(digits_value(s.drop_last()) == 0);
    } else {
        lemma_nat_digits(n / 10);
        let s = nat_digits(n);
        assert(s.drop_last() =~= nat_digits(n / 10));
    }
}

proof fn lemma_nat_digits_len(n: nat, k: nat, p: nat)
    requires
        k >= 1,
        n < p,
        p == pow10(k),
    ensures
        nat_digits(n).len() <= k,
    decreases k,
{
    if n >= 10 {
        assert(k >= 2) by {
            if k == 1 {
                assert(pow10(1) == 10 * pow10(0));
            }
        }
        let q = pow10((k - 1) as nat);
        assert(p == 10 * q);
        assert(n / 10 < q) by (nonlinear_arith)
            requires
                n < 10 * q,
                n >= 10,
        ;
        lemma_nat_digits_len(n / 10, (k - 1) as nat, q);
    }
}

/// `10` to the power `k`.
pub open spec fn pow10(k: nat) -> nat
    decreases k,
{
    if k == 0 {
        1
    } else {
        10 * pow10((k - 1) as nat)
    }
}

/// The decimal text of an `i32` has at most eleven characters.
pub proof fn lemma_int_decimal_len(v: i32)
    ensures
        int_decimal(v as int).len() <= 11,
{
    reveal_with_fuel(pow10, 11);
    assert(pow10(10) == 10000000000);
    if v < 0 {
        lemma_nat_digits_len((-v) as nat, 10, pow10(10));
    } else {
        lemma_nat_digits_len(v as nat, 10, pow10(10));
    }
}

/// Writing an `i32` in decimal and reading it back gives the same value.
pub proof fn lemma_parse_int_decimal(v: i32)
    ensures
        parse_i32_spec(int_decimal(v as int)) == Some(v),
        all_ascii(int_decimal(v as int)),
{
    if v < 0 {
        let n = (-v) as nat;
        lemma_nat_digits(n);
        let s = int_decimal(v as int);
        assert(s.drop_first() =~= nat_digits(n));
    } else {
        lemma_nat_digits(v as nat);
        let s = nat_digits(v as nat);
        assert(is_digit(s[0]));
    }
}

/// `c` is an ASCII digit.
pub fn is_ascii_digit(c: char) -> (b: bool)
    ensures
        b == is_digit(c),
{
    let u: u32 = c as u32;
    48 <= u && u <= 57
}

/// Whether two strings hold the same characters.
pub fn str_eq(a: &str, b: &str) -> (r: bool)
    ensures
        r == (a@ == b@),
{
    let n = a.unicode_len();
    if n != b.unicode_len() {
        return false;
    }
    let mut i: usize = 0;
    while i < n
        invariant
            n == a@.len(),
            n == b@.len(),
            i <= n,
            forall|j: int| 0 <= j < i ==> a@[j] == b@[j],
        decreases n - i,
    {
        if a.get_char(i) != b.get_char(i) {
            return false;
        }
        i = i + 1;
    }
    assert(a@ =~= b@);
    true
}

/// Reads an `i32` the way `str::parse::<i32>` does.
pub fn parse_i32(s: &str) -> (r: Option<i32>)
    ensures
        r == parse_i32_spec(s@),
{
    let n = s.unicode_len();
    let mut start: usize = 0;
    let mut neg = false;
    if n > 0 {
        let c0 = s.get_char(0);
        if c0 == '-' {
            neg = true;
            start = 1;
        } else if c0 == '+' {
            start = 1;
        }
    }
    let ghost body = if s@.len() > 0 && (s@[0] == '-' || s@[0] == '+') {
        s@.drop_first()
    } else {
        s@
    };
    assert(body =~= s@.subrange(start as int, n as int));
    if start >= n {
        return None;
    }
    let mut acc: i64 = 0;
    let mut over = false;
    let mut i: usize = start;
    while i < n
        invariant
            n == s@.len(),
            start <= i <= n,
            body =~= s@.subrange(start as int, n as int),
            body == (if s@.len() > 0 && (s@[0] == '-' || s@[0] == '+') {
                s@.drop_first()
            } else {
                s@
            }),
            neg == (s@.len() > 0 && s@[0] == '-'),
            all_digits(s@.subrange(start as int, i as int)),
            over ==> digits_value(s@.subrange(start as int, i as int)) > 2147483648,
            !over ==> acc == digits_value(s@.subrange(start as int, i as int)) && 0 <= acc
                <= 2147483648,
        decreases n - i,
    {
        let c = s.get_char(i);
        if !is_ascii_digit(c) {
            assert(s@.subrange(start as int, n as int)[i - start] == s@[i as int]);
            assert(body[i - start] == c);
            assert(!is_digit(body[i - start]));
            assert(!all_digits(body));
            return None;
        }
        let ghost pre = s@.subrange(start as int, i as int);
        let ghost post = s@.subrange(start as int, i + 1);
        assert(post.drop_last() =~= pre);
        assert(post.last() == c);
        assert(all_digits(post)) by {
            assert forall|j: int| 0 <= j < post.len() implies is_digit(#[trigger] post[j]) by {
                if j < pre.len() {
                    assert(post[j] == pre[j]);
                }
            }
        }
        proof {
            lemma_digits_value_nonneg(pre);
        }
        if !over {
            let d: i64 = (c as u32 - 48) as i64;
            acc = acc * 10 + d;
            if acc > 2147483648 {
                over = true;
            }
        }
        i = i + 1;
    }
    assert(s@.subrange(start as int, n as int) =~= body);
    if over {
        return None;
    }
    let v: i64 = if neg { -acc } else { acc };
    if v < -2147483648 || v > 2147483647 {
        return None;
    }
    Some(v as i32)
}

/// The length of an ASCII string: its byte length is its character count.
pub fn ascii_len(s: &String) -> (n: usize)
    requires
        all_ascii(s@),
        s@.len() <= usize::MAX,
    ensures
        n == s@.len(),
{
    let t = s.as_str();
    proof {
        vstd::string::is_ascii_spec_bytes(t);
    }
    t.len()
}

/// Whether `s` starts with `c`.
pub fn starts_with_char(s: &String, c: char) -> (b: bool)
    ensures
        b == (s@.len() > 0 && s@[0] == c),
{
    let t = s.as_str();
    t.unicode_len() > 0 && t.get_char(0) == c
}

/// `String::push`: appends one character.
#[verifier::external_body]
pub(crate) fn string_push(s: &mut String, c: char)
    ensures
        final(s)@ == old(s)@.push(c),
{
    s.push(c)
}

/// `String::insert`: on an ASCII string, a byte index is a character index,
/// so inserting at `idx` inserts the character at that position.
#[verifier::external_body]
pub(crate) fn string_insert(s: &mut String, idx: usize, c: char)
    requires
        all_ascii(old(s)@),
        idx <= old(s)@.len(),
    ensures
        final(s)@ == old(s)@.insert(idx as int, c),
        final(s)@.len() <= isize::MAX,
{
    s.insert(idx, c)
}

/// `String::remove`: on an ASCII string, removes and returns the character
/// at position `idx`.
#[verifier::external_body]
pub(crate) fn string_remove(s: &mut String, idx: usize) -> (c: char)
    requires
        all_ascii(old(s)@),
        idx < old(s)@.len(),
    ensures
        final(s)@ == old(s)@.remove(idx as int),
        c == old(s)@[idx as int],
{
    s.remove(idx)
}

fn push_digits(s: &mut String, n: u64)
    ensures
        final(s)@ == old(s)@ + nat_digits(n as nat),
    decreases n,
{
    if n < 10 {
        string_push(s, ((n + 48) as u8) as char);
        assert(final(s)@ =~= old(s)@ + nat_digits(n as nat));
    } else {
        push_digits(s, n / 10);
        let d: u64 = n % 10;
        string_push(s, ((d + 48) as u8) as char);
        assert(s@ =~= old(s)@ + nat_digits(n as nat));
    }
}

/// Writes an `i32` in decimal, as `i32::to_string` does.
pub fn format_i32(v: i32) -> (s: String)
    ensures
        s@ == int_decimal(v as int),
        all_ascii(s@),
        s@.len() <= 11,
{
    proof {
        lemma_parse_int_decimal(v);
        lemma_int_decimal_len(v);
    }
    let mut s = String::new();
    if v < 0 {
        string_push(&mut s, '-');
        let m: i64 = -(v as i64);
        push_digits(&mut s, m as u64);
        assert(s@ =~= int_decimal(v as int));
    } else {
        push_digits(&mut s, v as u64);
        assert(s@ =~= int_decimal(v as int));
    }
    s
}

/// Writes a `usize` in decimal, as `usize::to_string` does.
pub fn format_usize(n: usize) -> (s: String)
    ensures
        s@ == nat_digits(n as nat),
{
    let mut s = String::new();
    push_digits(&mut s, n as u64);
    assert(s@ =~= nat_digits(n as nat));
    s
}

} // verus!
