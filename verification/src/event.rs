use vstd::prelude::*;

use crate::action::AppAction;
use crate::key::Key;
use crate::vec2::{IVec2, UVec2};

verus! {

/// What happens to the editor: input from the user, or actions it asks of itself.
#[derive(Debug)]
pub enum Event {
    Quit,
    Resize,
    Input(Key),
    Click(UVec2),
    Scroll(IVec2),
    Action(AppAction),
    Command(String),
}

/// The number of decimal digits of `n`.
pub open spec fn decimal_digits(n: nat) -> nat
    decreases n,
{
    if n < 10 {
        1
    } else {
        1 + decimal_digits(n / 10)
    }
}

/// The character of a decimal digit.
pub open spec fn digit_char(d: nat) -> char {
    if d == 0 { '0' } else if d == 1 { '1' } else if d == 2 { '2' } else if d == 3 { '3' } else if d == 4 {
        '4'
    } else if d == 5 { '5' } else if d == 6 { '6' } else if d == 7 { '7' } else if d == 8 { '8' } else { '9' }
}

/// The decimal text of `n`.
pub open spec fn decimal_chars(n: nat) -> Seq<char>
    decreases n,
{
    if n < 10 {
        seq![digit_char(n)]
    } else {
        decimal_chars(n / 10).push(digit_char(n % 10))
    }
}

/// The decimal text has as many characters as the number has digits.
pub proof fn lemma_decimal_len(n: nat)
    ensures
        decimal_chars(n).len() == decimal_digits(n),
    decreases n,
{
    if n >= 10 {
        lemma_decimal_len(n / 10);
    }
}

/// Appends the decimal text of `n` to `s`.
pub fn push_decimal(s: &mut String, n: usize)
    ensures
        final(s)@ == old(s)@ + decimal_chars(n as nat),
    decreases n,
{
    if n >= 10 {
        push_decimal(s, n / 10);
    }
    let d = n % 10;
    let c = if d == 0 { '0' } else if d == 1 { '1' } else if d == 2 { '2' } else if d == 3 { '3' } else if d == 4 {
        '4'
    } else if d == 5 { '5' } else if d == 6 { '6' } else if d == 7 { '7' } else if d == 8 { '8' } else { '9' };
    crate::text::string_push(s, c);
    if n < 10 {
        assert(final(s)@ =~= old(s)@ + seq![digit_char(n as nat)]);
    } else {
        assert(final(s)@ =~= old(s)@ + decimal_chars((n / 10) as nat).push(digit_char((n % 10) as nat)));
    }
}

/// The decimal text of `n` followed by spaces up to `width` characters, as `format!("{:<width$}", n)` gives it.
pub open spec fn padded_number(n: nat, width: nat) -> Seq<char> {
    let d = decimal_chars(n);
    if d.len() < width {
        d + Seq::new((width - d.len()) as nat, |i: int| ' ')
    } else {
        d
    }
}

/// The decimal text of `n`, left-aligned and padded with spaces to `width` characters.
pub fn number_text(n: usize, width: usize) -> (r: String)
    ensures
        r@ == padded_number(n as nat, width as nat),
{
    let mut s = String::new();
    push_decimal(&mut s, n);
    assert(s@ =~= decimal_chars(n as nat));
    let len = count_digits(n);
    proof {
        lemma_decimal_len(n as nat);
    }
    if len < width {
        let mut k = len;
        while k < width
            invariant
                len <= k <= width,
                s@ == decimal_chars(n as nat) + Seq::new((k - len) as nat, |i: int| ' '),
            decreases width - k,
        {
            crate::text::string_push(&mut s, ' ');
            assert(s@ =~= decimal_chars(n as nat) + Seq::new((k + 1 - len) as nat, |i: int| ' '));
            k = k + 1;
        }
    }
    s
}

/// Ten to the power `k`.
pub open spec fn pow10(k: nat) -> nat
    decreases k,
{
    if k == 0 {
        1
    } else {
        10 * pow10((k - 1) as nat)
    }
}

/// A number below `10^k` has at most `k` digits.
pub proof fn lemma_digits_bound(n: nat, k: nat)
    requires
        k >= 1,
        n < pow10(k),
    ensures
        decimal_digits(n) <= k,
    decreases k,
{
    if n >= 10 {
        let p = pow10((k - 1) as nat);
        assert(n / 10 < p) by (nonlinear_arith)
            requires
                n < 10 * p,
        ;
        if k == 1 {
            assert(pow10(1) == 10) by {
                reveal_with_fuel(pow10, 2);
            }
        } else {
            lemma_digits_bound(n / 10, (k - 1) as nat);
        }
    }
}

/// The number of decimal digits of `n`, as its text `n.to_string()` has.
pub fn count_digits(n: usize) -> (r: usize)
    ensures
        r == decimal_digits(n as nat),
        1 <= r <= 20,
{
    proof {
        assert(pow10(20) == 100000000000000000000) by {
            reveal_with_fuel(pow10, 21);
        }
        lemma_digits_bound(n as nat, 20);
    }
    let mut m = n;
    let mut d: usize = 1;
    while m >= 10
        invariant
            1 <= d,
            d + decimal_digits(m as nat) == decimal_digits(n as nat) + 1,
            decimal_digits(m as nat) + d <= 21,
        decreases m,
    {
        m = m / 10;
        d = d + 1;
    }
    d
}

} // verus!
