use vstd::prelude::*;

verus! {

/// The decimal digit `d` (0 to 9) as a character.
pub open spec fn digit_char(d: int) -> char {
    ((48 + d) as u8) as char
}

/// Decimal notation of `n`, without leading zeros.
pub open spec fn decimal(n: nat) -> Seq<char>
    decreases n,
{
    if n < 10 {
        seq![digit_char(n as int)]
    } else {
        decimal(n / 10).push(digit_char((n % 10) as int))
    }
}

/// Decimal notation of a signed integer, with a leading `-` when negative.
pub open spec fn signed_decimal(n: int) -> Seq<char> {
    if n < 0 {
        seq!['-'].add(decimal((-n) as nat))
    } else {
        decimal(n as nat)
    }
}

/// Identifier of the policy issued at `created_at` as the contract's `sequence`-th policy:
/// `POL-<created_at>-<sequence>`.
pub open spec fn policy_id_text(created_at: i64, sequence: u64) -> Seq<char> {
    seq!['P', 'O', 'L', '-'].add(signed_decimal(created_at as int)).add(seq!['-']).add(
        decimal(sequence as nat),
    )
}

/// Relies on `String::push`: appends one character.
#[verifier::external_body]
fn push_char(s: &mut String, c: char)
    ensures
        final(s)@ == old(s)@.push(c),
{
    s.push(c)
}

fn push_str_chars(s: &mut String, text: &[char])
    ensures
        final(s)@ == old(s)@.add(text@),
{
    let mut i: usize = 0;
    while i < text.len()
        invariant
            0 <= i <= text@.len(),
            s@ == old(s)@.add(text@.take(i as int)),
        decreases text@.len() - i,
    {
        assert(text@.take(i as int + 1) =~= text@.take(i as int).push(text@[i as int]));
        push_char(s, text[i]);
        i = i + 1;
    }
    assert(text@.take(i as int) =~= text@);
}

/// Appends the decimal notation of `n`.
fn push_decimal(s: &mut String, n: u64)
    ensures
        final(s)@ == old(s)@.add(decimal(n as nat)),
    decreases n,
{
    if n >= 10 {
        push_decimal(s, n / 10);
    }
    let d = (n % 10) as u8;
    push_char(s, (48u8 + d) as char);
    if n >= 10 {
        assert(decimal(n as nat) == decimal((n / 10) as nat).push(digit_char((n % 10) as int)));
        assert(old(s)@.add(decimal((n / 10) as nat)).push(digit_char((n % 10) as int)) =~= old(s)@.add(decimal(n as nat)));
    } else {
        assert(old(s)@.push(digit_char(n as int)) =~= old(s)@.add(decimal(n as nat)));
    }
}

/// Policy identifier `POL-<created_at>-<sequence>`.
pub fn format_policy_id(created_at: i64, sequence: u64) -> (r: String)
    ensures
        r@ == policy_id_text(created_at, sequence),
{
    let mut s = String::new();
    push_str_chars(&mut s, &['P', 'O', 'L', '-']);
    if created_at < 0 {
        push_char(&mut s, '-');
        push_decimal(&mut s, (0 - (created_at as i128)) as u64);
    } else {
        push_decimal(&mut s, created_at as u64);
    }
    push_char(&mut s, '-');
    push_decimal(&mut s, sequence);
    assert(s@ =~= policy_id_text(created_at, sequence));
    s
}

} // verus!
