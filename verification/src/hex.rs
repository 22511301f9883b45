//! Upper-case hexadecimal text, as the patch error messages print numbers
//! (`{:X}`) and byte lists (`{:02X?}`).
use vstd::prelude::*;

verus! {

/// The sixteen upper-case hexadecimal digits, in order.
pub open spec fn hex_digits() -> Seq<char> {
    "0123456789ABCDEF"@
}

/// The digit that stands for the value `n` (below 16).
pub open spec fn hex_char(n: int) -> char {
    hex_digits()[n]
}

/// A number in upper-case hexadecimal without leading zeros.
pub open spec fn hex_upper(n: nat) -> Seq<char>
    decreases n,
{
    if n < 16 {
        seq![hex_char(n as int)]
    } else {
        hex_upper(n / 16) + seq![hex_char((n % 16) as int)]
    }
}

/// A byte as two upper-case hexadecimal digits.
pub open spec fn hex_byte(b: u8) -> Seq<char> {
    seq![hex_char((b / 16) as int), hex_char((b % 16) as int)]
}

/// The bytes as two-digit upper-case hexadecimal, separated by `", "`.
pub open spec fn hex_items(bs: Seq<u8>) -> Seq<char>
    decreases bs.len(),
{
    if bs.len() == 0 {
        Seq::empty()
    } else if bs.len() == 1 {
        hex_byte(bs[0])
    } else {
        hex_items(bs.drop_last()) + ", "@ + hex_byte(bs.last())
    }
}

/// A byte list as debug output prints it in upper-case hexadecimal:
/// `[0F, 28, B1]`.
pub open spec fn hex_list(bs: Seq<u8>) -> Seq<char> {
    "["@ + hex_items(bs) + "]"@
}

/// Appends the digit for `n`.
fn push_digit(out: &mut String, n: usize)
    requires
        n < 16,
    ensures
        final(out)@ == old(out)@ + seq![hex_char(n as int)],
{
    let digits = "0123456789ABCDEF";
    proof {
        reveal_strlit("0123456789ABCDEF");
    }
    let d = digits.substring_char(n, n + 1);
    assert(d@ =~= seq![hex_char(n as int)]);
    out.append(d);
}

/// Appends `n` in upper-case hexadecimal without leading zeros.
pub fn push_hex(out: &mut String, n: usize)
    ensures
        final(out)@ == old(out)@ + hex_upper(n as nat),
    decreases n,
{
    if n >= 16 {
        push_hex(out, n / 16);
    }
    push_digit(out, n % 16);
    assert(final(out)@ =~= old(out)@ + hex_upper(n as nat)) by {
        if n >= 16 {
            assert(hex_upper(n as nat) == hex_upper((n / 16) as nat) + seq![hex_char((n % 16) as int)]);
        }
    }
}

/// Appends `b` as two upper-case hexadecimal digits.
pub fn push_hex_byte(out: &mut String, b: u8)
    ensures
        final(out)@ == old(out)@ + hex_byte(b),
{
    push_digit(out, (b / 16) as usize);
    push_digit(out, (b % 16) as usize);
    assert(final(out)@ =~= old(out)@ + hex_byte(b));
}

/// Appends the byte list in the form `[8B, D3]`.
pub fn push_hex_list(out: &mut String, bs: &[u8])
    ensures
        final(out)@ == old(out)@ + hex_list(bs@),
{
    let ghost start = out@;
    out.append("[");
    let mut i: usize = 0;
    while i < bs.len()
        invariant
            i <= bs@.len(),
            out@ == start + "["@ + hex_items(bs@.take(i as int)),
        decreases bs@.len() - i,
    {
        if i > 0 {
            out.append(", ");
        }
        push_hex_byte(out, bs[i]);
        assert(bs@.take(i + 1).drop_last() =~= bs@.take(i as int));
        if i == 0 {
            assert(bs@.take(1) =~= seq![bs@[0]]);
        }
        assert(out@ =~= start + "["@ + hex_items(bs@.take(i + 1)));
        i = i + 1;
    }
    assert(bs@.take(bs@.len() as int) =~= bs@);
    out.append("]");
    assert(out@ =~= start + hex_list(bs@));
}

/// The value of an upper-case hexadecimal digit, or -1 for any other
/// character.
pub open spec fn digit_value(c: char) -> int {
    if '0' <= c && c <= '9' {
        c as int - '0' as int
    } else if 'A' <= c && c <= 'F' {
        c as int - 'A' as int + 10
    } else {
        -1
    }
}

/// The number that a string of hexadecimal digits denotes.
pub open spec fn hex_value(s: Seq<char>) -> int
    decreases s.len(),
{
    if s.len() == 0 {
        0
    } else {
        hex_value(s.drop_last()) * 16 + digit_value(s.last())
    }
}

/// The digit for `n` is the upper-case hexadecimal digit whose value is `n`.
pub proof fn lemma_hex_char_value(n: int)
    requires
        0 <= n < 16,
    ensures
        digit_value(hex_char(n)) == n,
        n < 10 ==> hex_char(n) as int == '0' as int + n,
        n >= 10 ==> hex_char(n) as int == 'A' as int + n - 10,
{
    reveal_strlit("0123456789ABCDEF");
}

/// `hex_upper(n)` is a string of upper-case hexadecimal digits that denotes
/// `n`, with no leading zero.
pub proof fn lemma_hex_upper_value(n: nat)
    ensures
        hex_value(hex_upper(n)) == n,
        hex_upper(n).len() >= 1,
        n > 0 ==> hex_upper(n)[0] != '0',
        forall|i: int| 0 <= i < hex_upper(n).len() ==> 0 <= #[trigger] digit_value(hex_upper(n)[i]) < 16,
    decreases n,
{
    if n < 16 {
        lemma_hex_char_value(n as int);
        let s = hex_upper(n);
        assert(s.drop_last() =~= Seq::<char>::empty());
        assert(hex_value(s.drop_last()) == 0);
        assert(hex_value(s) == hex_value(s.drop_last()) * 16 + digit_value(s.last()));
    } else {
        lemma_hex_upper_value(n / 16);
        lemma_hex_char_value((n % 16) as int);
        let s = hex_upper(n);
        assert(s.drop_last() =~= hex_upper(n / 16));
        assert(s[0] == hex_upper(n / 16)[0]);
        assert(hex_value(s) == hex_value(s.drop_last()) * 16 + digit_value(s.last()));
        assert(n == (n / 16) * 16 + n % 16);
        assert forall|i: int| 0 <= i < s.len() implies 0 <= #[trigger] digit_value(s[i]) < 16 by {
            if i < s.len() - 1 {
                assert(s[i] == hex_upper(n / 16)[i]);
            }
        }
    }
}

/// `hex_byte(b)` is two upper-case hexadecimal digits that denote `b`.
pub proof fn lemma_hex_byte_value(b: u8)
    ensures
        hex_byte(b).len() == 2,
        hex_value(hex_byte(b)) == b,
        0 <= digit_value(hex_byte(b)[0]) < 16,
        0 <= digit_value(hex_byte(b)[1]) < 16,
{
    lemma_hex_char_value((b / 16) as int);
    lemma_hex_char_value((b % 16) as int);
    let s = hex_byte(b);
    assert(s.drop_last() =~= seq![hex_char((b / 16) as int)]);
    assert(s.drop_last().drop_last() =~= Seq::<char>::empty());
    assert(hex_value(s.drop_last().drop_last()) == 0);
    assert(hex_value(s.drop_last()) == digit_value(s[0]));
    assert(hex_value(s) == hex_value(s.drop_last()) * 16 + digit_value(s.last()));
    assert(b == (b / 16) * 16 + b % 16);
}

} // verus!
