//! Ticket numbers issued after a passenger's payment: `TICKET-` followed by
//! the decimal digits of a random 32-bit number.

use vstd::prelude::*;
use vstd::string::*;
use crate::random::{draw_u32, RandomSourceError};

verus! {

pub open spec fn digit_char(d: nat) -> char {
    if d == 0 {
        '0'
    } else if d == 1 {
        '1'
    } else if d == 2 {
        '2'
    } else if d == 3 {
        '3'
    } else if d == 4 {
        '4'
    } else if d == 5 {
        '5'
    } else if d == 6 {
        '6'
    } else if d == 7 {
        '7'
    } else if d == 8 {
        '8'
    } else {
        '9'
    }
}

pub open spec fn digit_value(c: char) -> nat {
    if c == '0' {
        0
    } else if c == '1' {
        1
    } else if c == '2' {
        2
    } else if c == '3' {
        3
    } else if c == '4' {
        4
    } else if c == '5' {
        5
    } else if c == '6' {
        6
    } else if c == '7' {
        7
    } else if c == '8' {
        8
    } else {
        9
    }
}

/// The decimal representation of `n`, without leading zeros.
pub open spec fn decimal(n: nat) -> Seq<char>
    decreases n,
{
    if n < 10 {
        seq![digit_char(n)]
    } else {
        decimal(n / 10).push(digit_char(n % 10))
    }
}

/// The number that a string of decimal digits denotes.
pub open spec fn decimal_value(s: Seq<char>) -> nat
    decreases s.len(),
{
    if s.len() == 0 {
        0
    } else {
        decimal_value(s.drop_last()) * 10 + digit_value(s.last())
    }
}

/// The ticket number issued for the random draw `n`.
pub open spec fn ticket_text(n: nat) -> Seq<char> {
    "TICKET-"@ + decimal(n)
}

pub open spec fn is_ticket_number(s: Seq<char>) -> bool {
    exists|n: u32| s == ticket_text(n as nat)
}

proof fn lemma_decimal_value(n: nat)
    ensures
        decimal_value(decimal(n)) == n,
    decreases n,
{
    if n < 10 {
        let d = decimal(n);
        assert(d.drop_last() =~= Seq::<char>::empty());
        assert(decimal_value(d.drop_last()) == 0);
        assert(digit_value(d.last()) == n);
    } else {
        lemma_decimal_value(n / 10);
        let d = decimal(n);
        assert(d.drop_last() =~= decimal(n / 10));
        assert(digit_value(d.last()) == n % 10);
        assert(n == (n / 10) * 10 + n % 10) by (nonlinear_arith);
    }
}

/// Different draws give different decimal texts.
pub proof fn lemma_decimal_injective(a: nat, b: nat)
    requires
        decimal(a) == decimal(b),
    ensures
        a == b,
{
    lemma_decimal_value(a);
    lemma_decimal_value(b);
}

/// Different draws are issued different ticket numbers.
pub proof fn lemma_ticket_numbers_distinct(a: nat, b: nat)
    requires
        a != b,
    ensures
        ticket_text(a) != ticket_text(b),
{
    let p = "TICKET-"@;
    if ticket_text(a) == ticket_text(b) {
        assert(decimal(a) =~= ticket_text(a).subrange(p.len() as int, ticket_text(a).len() as int));
        assert(decimal(b) =~= ticket_text(b).subrange(p.len() as int, ticket_text(b).len() as int));
        lemma_decimal_injective(a, b);
    }
}

fn digit_text(d: u32) -> (r: &'static str)
    requires
        d < 10,
    ensures
        r@ == seq![digit_char(d as nat)],
{
    proof {
        reveal_strlit("0");
        reveal_strlit("1");
        reveal_strlit("2");
        reveal_strlit("3");
        reveal_strlit("4");
        reveal_strlit("5");
        reveal_strlit("6");
        reveal_strlit("7");
        reveal_strlit("8");
        reveal_strlit("9");
    }
    if d == 0 {
        "0"
    } else if d == 1 {
        "1"
    } else if d == 2 {
        "2"
    } else if d == 3 {
        "3"
    } else if d == 4 {
        "4"
    } else if d == 5 {
        "5"
    } else if d == 6 {
        "6"
    } else if d == 7 {
        "7"
    } else if d == 8 {
        "8"
    } else {
        "9"
    }
}

/// Appends the decimal digits of `n` to `out`.
fn push_decimal(out: &mut String, n: u32)
    ensures
        final(out)@ == old(out)@ + decimal(n as nat),
    decreases n,
{
    if n >= 10 {
        push_decimal(out, n / 10);
    }
    out.append(digit_text(n % 10));
    proof {
        if n >= 10 {
            assert(decimal(n as nat) == decimal((n / 10) as nat).push(digit_char((n % 10) as nat)));
        }
    }
    assert(final(out)@ =~= old(out)@ + decimal(n as nat));
}

/// The decimal text of `n`, as `n.to_string()` writes it.
pub fn decimal_text(n: u32) -> (r: String)
    ensures
        r@ == decimal(n as nat),
{
    let mut out = String::new();
    push_decimal(&mut out, n);
    assert(out@ =~= decimal(n as nat));
    out
}

/// The ticket number for the draw `n`: `TICKET-` followed by `n` in decimal.
pub fn ticket_number(n: u32) -> (r: String)
    ensures
        r@ == ticket_text(n as nat),
{
    let mut out = String::from_str("TICKET-");
    push_decimal(&mut out, n);
    out
}

/// Draws a random number and issues the ticket number for it, as the
/// payment step does.
pub fn make_ticket_number() -> (r: Result<String, RandomSourceError>)
    ensures
        r matches Ok(t) ==> is_ticket_number(t@),
        r matches Err(e) ==> e == RandomSourceError::Unavailable,
{
    let n = draw_u32()?;
    let t = ticket_number(n);
    assert(t@ == ticket_text(n as nat));
    Ok(t)
}

} // verus!
