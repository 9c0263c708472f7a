//! Short codes: numbers written in base 62, most significant digit first,
//! padded with leading zero digits to at least `CODE_LEN` symbols.

use vstd::prelude::*;

use crate::text::push_char;

verus! {

/// Number of symbols in the short-code alphabet.
pub const BASE: usize = 62;

/// Minimum number of symbols in a generated short code.
pub const CODE_LEN: usize = 6;

/// The symbol that stands for digit `d`: `a`–`z` for 0–25, `A`–`Z` for
/// 26–51 and `0`–`9` for 52–61.
pub open spec fn symbol(d: int) -> char {
    if d < 26 {
        ('a' as int + d) as char
    } else if d < 52 {
        ('A' as int + (d - 26)) as char
    } else {
        ('0' as int + (d - 52)) as char
    }
}

/// The digit that symbol `c` stands for (0 for characters outside the
/// alphabet).
pub open spec fn digit_of(c: char) -> int {
    if 'a' <= c && c <= 'z' {
        c as int - 'a' as int
    } else if 'A' <= c && c <= 'Z' {
        c as int - 'A' as int + 26
    } else if '0' <= c && c <= '9' {
        c as int - '0' as int + 52
    } else {
        0
    }
}

/// Whether `c` belongs to the short-code alphabet.
pub open spec fn is_symbol(c: char) -> bool {
    ('a' <= c && c <= 'z') || ('A' <= c && c <= 'Z') || ('0' <= c && c <= '9')
}

/// The base-62 digits of `n`, least significant first, without leading
/// zeros (so the digits of 0 are empty).
pub open spec fn digits_le(n: nat) -> Seq<usize>
    decreases n,
{
    if n == 0 {
        Seq::empty()
    } else {
        seq![(n % 62) as usize] + digits_le(n / 62)
    }
}

/// `k` zero digits.
pub open spec fn zeros(k: nat) -> Seq<usize> {
    Seq::new(k, |i: int| 0usize)
}

/// The digits of `n`, least significant first, padded with zeros to at
/// least `CODE_LEN` digits.
pub open spec fn code_digits(n: nat) -> Seq<usize> {
    let d = digits_le(n);
    if d.len() < CODE_LEN {
        d + zeros((CODE_LEN - d.len()) as nat)
    } else {
        d
    }
}

/// The symbols of little-endian digits `d`, most significant first.
pub open spec fn symbols_of(d: Seq<usize>) -> Seq<char> {
    Seq::new(d.len(), |i: int| symbol(d[d.len() - 1 - i] as int))
}

/// The short code of `n`.
pub open spec fn code_of(n: nat) -> Seq<char> {
    symbols_of(code_digits(n))
}

/// The number that a code denotes, its symbols read as base-62 digits,
/// most significant first.
pub open spec fn code_value(s: Seq<char>) -> nat
    decreases s.len(),
{
    if s.len() == 0 {
        0
    } else {
        (code_value(s.drop_last()) * 62 + digit_of(s.last())) as nat
    }
}

/// 62 to the power `k`.
pub open spec fn pow62(k: nat) -> nat
    decreases k,
{
    if k == 0 {
        1
    } else {
        62 * pow62((k - 1) as nat)
    }
}

/// Returns the symbol of digit `d`.
pub fn base62_symbol(d: usize) -> (c: char)
    requires
        d < BASE,
    ensures
        c == symbol(d as int),
{
    if d < 26 {
        (97u8 + d as u8) as char
    } else if d < 52 {
        (65u8 + (d - 26) as u8) as char
    } else {
        (48u8 + (d - 52) as u8) as char
    }
}

/// Every digit of `n` is below 62.
pub proof fn lemma_digits_bounded(n: nat)
    ensures
        forall|i: int| 0 <= i < digits_le(n).len() ==> digits_le(n)[i] < BASE,
    decreases n,
{
    if n > 0 {
        lemma_digits_bounded(n / 62);
        assert forall|i: int| 0 <= i < digits_le(n).len() implies digits_le(n)[i] < BASE by {
            if i > 0 {
                assert(digits_le(n)[i] == digits_le(n / 62)[i - 1]);
            }
        }
    }
}

/// Writes `id` as a short code: its base-62 digits, most significant
/// first, padded with leading `a` (the zero digit) to at least six symbols.
pub fn encode(id: usize) -> (code: String)
    ensures
        code@ == code_of(id as nat),
{
    let mut remaining: usize = id;
    let mut digits: Vec<usize> = Vec::new();
    proof {
        lemma_digits_bounded(id as nat);
    }
    while remaining > 0
        invariant
            digits@ + digits_le(remaining as nat) == digits_le(id as nat),
            forall|i: int| 0 <= i < digits_le(id as nat).len() ==> digits_le(id as nat)[i] < BASE,
        decreases remaining,
    {
        let carry: usize = remaining % BASE;
        let ghost before = digits@;
        digits.push(carry);
        assert(digits_le(remaining as nat) == seq![carry] + digits_le((remaining / BASE) as nat));
        assert(digits@ + digits_le((remaining / BASE) as nat) =~= before + digits_le(remaining as nat));
        remaining = remaining / BASE;
    }
    assert(digits@ =~= digits_le(id as nat));
    let ghost dl = digits@.len();
    while digits.len() < CODE_LEN
        invariant
            dl == digits_le(id as nat).len(),
            dl <= digits.len(),
            digits.len() <= CODE_LEN || digits.len() == dl,
            digits@ == digits_le(id as nat) + zeros((digits.len() - dl) as nat),
        decreases CODE_LEN - digits.len(),
    {
        digits.push(0);
        assert(digits@ =~= digits_le(id as nat) + zeros((digits.len() - dl) as nat));
    }
    assert(digits@ =~= code_digits(id as nat));
    assert(forall|i: int| 0 <= i < digits@.len() ==> digits@[i] < BASE);
    let n: usize = digits.len();
    let mut code = String::new();
    let mut i: usize = 0;
    while i < n
        invariant
            n == digits.len(),
            i <= n,
            digits@ == code_digits(id as nat),
            forall|j: int| 0 <= j < digits@.len() ==> digits@[j] < BASE,
            code@ == code_of(id as nat).take(i as int),
        decreases n - i,
    {
        let c = base62_symbol(digits[n - 1 - i]);
        push_char(&mut code, c);
        i = i + 1;
        assert(code@ =~= code_of(id as nat).take(i as int));
    }
    assert(code@ =~= code_of(id as nat));
    code
}


/// Little-endian value of a digit sequence.
pub open spec fn value_le(d: Seq<usize>) -> nat
    decreases d.len(),
{
    if d.len() == 0 {
        0
    } else {
        (d[0] + 62 * value_le(d.drop_first())) as nat
    }
}

proof fn lemma_value_digits(n: nat)
    ensures
        value_le(digits_le(n)) == n,
    decreases n,
{
    if n > 0 {
        lemma_value_digits(n / 62);
        assert(digits_le(n).drop_first() =~= digits_le(n / 62));
    }
}

proof fn lemma_value_zeros(d: Seq<usize>, k: nat)
    ensures
        value_le(d + zeros(k)) == value_le(d),
    decreases d.len() + k,
{
    if d.len() == 0 {
        if k > 0 {
            assert((d + zeros(k)).drop_first() =~= Seq::<usize>::empty() + zeros((k - 1) as nat));
            lemma_value_zeros(d, (k - 1) as nat);
            assert(Seq::<usize>::empty() + zeros((k - 1) as nat) =~= d + zeros((k - 1) as nat));
        } else {
            assert(d + zeros(k) =~= d);
        }
    } else {
        assert((d + zeros(k)).drop_first() =~= d.drop_first() + zeros(k));
        lemma_value_zeros(d.drop_first(), k);
    }
}

proof fn lemma_symbols_value(d: Seq<usize>)
    requires
        forall|i: int| 0 <= i < d.len() ==> d[i] < BASE,
    ensures
        code_value(symbols_of(d)) == value_le(d),
    decreases d.len(),
{
    if d.len() > 0 {
        let s = symbols_of(d);
        assert(s.drop_last() =~= symbols_of(d.drop_first()));
        lemma_symbols_value(d.drop_first());
        assert(s.last() == symbol(d[0] as int));
        assert(digit_of(symbol(d[0] as int)) == d[0]);
    }
}

proof fn lemma_code_digits_bounded(n: nat)
    ensures
        forall|i: int| 0 <= i < code_digits(n).len() ==> code_digits(n)[i] < BASE,
{
    lemma_digits_bounded(n);
}

/// Reading a short code back as a base-62 number gives the id it was made
/// from.
pub proof fn lemma_code_value(n: nat)
    ensures
        code_value(code_of(n)) == n,
{
    lemma_code_digits_bounded(n);
    lemma_symbols_value(code_digits(n));
    lemma_value_digits(n);
    let d = digits_le(n);
    if d.len() < CODE_LEN {
        lemma_value_zeros(d, (CODE_LEN - d.len()) as nat);
    }
}

/// Distinct ids get distinct short codes.
pub proof fn lemma_code_injective(a: nat, b: nat)
    requires
        code_of(a) == code_of(b),
    ensures
        a == b,
{
    lemma_code_value(a);
    lemma_code_value(b);
}

/// Every symbol of a short code is a lower-case letter, an upper-case
/// letter or a decimal digit.
pub proof fn lemma_code_symbols(n: nat)
    ensures
        forall|i: int| 0 <= i < code_of(n).len() ==> is_symbol(#[trigger] code_of(n)[i]),
{
    lemma_code_digits_bounded(n);
}

proof fn lemma_digits_len(n: nat, k: nat)
    requires
        n < pow62(k),
    ensures
        digits_le(n).len() <= k,
    decreases k,
{
    if n > 0 {
        assert(k > 0);
        lemma_digits_len(n / 62, (k - 1) as nat);
    }
}

/// A short code has at least six symbols, and exactly six when the id is
/// below 62 to the sixth.
pub proof fn lemma_code_len(n: nat)
    ensures
        code_of(n).len() >= CODE_LEN,
        n < pow62(6) ==> code_of(n).len() == CODE_LEN,
{
    if n < pow62(6) {
        lemma_digits_len(n, 6);
    }
}

} // verus!
