//! Text building blocks: decimal and hexadecimal numbers, booleans and lists.
//!
//! The error messages of this crate are part of its interface, so every one of
//! them is described by a `Seq<char>` and built from the functions below.

use vstd::prelude::*;

verus! {

/// The character of the hexadecimal digit `d`, in lower case.
pub open spec fn digit_char(d: int) -> char {
    if d < 10 {
        (48 + d) as char
    } else {
        (87 + d) as char
    }
}

/// The decimal numeral of `n`, without leading zeros.
pub open spec fn decimal(n: nat) -> Seq<char>
    decreases n,
{
    if n < 10 {
        seq![digit_char(n as int)]
    } else {
        decimal(n / 10).push(digit_char((n % 10) as int))
    }
}

/// The last `width` hexadecimal digits of `n`.
pub open spec fn hex(n: nat, width: nat) -> Seq<char>
    decreases width,
{
    if width == 0 {
        Seq::empty()
    } else {
        hex(n / 16, (width - 1) as nat).push(digit_char((n % 16) as int))
    }
}

/// `true` or `false`.
pub open spec fn boolean(b: bool) -> Seq<char> {
    if b {
        "true"@
    } else {
        "false"@
    }
}

/// The items of a list of booleans, separated by a comma and a space.
pub open spec fn joined_booleans(items: Seq<bool>) -> Seq<char>
    decreases items.len(),
{
    if items.len() == 0 {
        Seq::empty()
    } else if items.len() == 1 {
        boolean(items[0])
    } else {
        joined_booleans(items.drop_last()) + ", "@ + boolean(items.last())
    }
}

/// The items of a list of numbers, separated by a comma and a space.
pub open spec fn joined_numbers(items: Seq<u16>) -> Seq<char>
    decreases items.len(),
{
    if items.len() == 0 {
        Seq::empty()
    } else if items.len() == 1 {
        decimal(items[0] as nat)
    } else {
        joined_numbers(items.drop_last()) + ", "@ + decimal(items.last() as nat)
    }
}

/// A list of booleans in square brackets.
pub open spec fn boolean_list(items: Seq<bool>) -> Seq<char> {
    "["@ + joined_booleans(items) + "]"@
}

/// A list of numbers in square brackets.
pub open spec fn number_list(items: Seq<u16>) -> Seq<char> {
    "["@ + joined_numbers(items) + "]"@
}

/// The one-character string of the hexadecimal digit `d`.
fn digit(d: u64) -> (s: &'static str)
    requires
        d < 16,
    ensures
        s@ == seq![digit_char(d as int)],
{
    proof {
        reveal_strlit("0");
        reveal_strlit("1");
        reveal_strlit("2");
        reveal_strlit("3");
        reveal_strlit("4");
        reveal_strlit("5");
        reveal_strlit("6");
        reveal_strlit("7");
        reveal_strlit("8");
        reveal_strlit("9");
        reveal_strlit("a");
        reveal_strlit("b");
        reveal_strlit("c");
        reveal_strlit("d");
        reveal_strlit("e");
        reveal_strlit("f");
    }
    let s = match d {
        0 => "0",
        1 => "1",
        2 => "2",
        3 => "3",
        4 => "4",
        5 => "5",
        6 => "6",
        7 => "7",
        8 => "8",
        9 => "9",
        10 => "a",
        11 => "b",
        12 => "c",
        13 => "d",
        14 => "e",
        _ => "f",
    };
    assert(s@ =~= seq![digit_char(d as int)]);
    s
}

/// Appends the decimal numeral of `n`.
pub fn push_decimal(out: &mut String, n: u64)
    ensures
        final(out)@ == old(out)@ + decimal(n as nat),
    decreases n,
{
    if n < 10 {
        out.append(digit(n));
    } else {
        push_decimal(out, n / 10);
        let ghost so_far = out@;
        out.append(digit(n % 10));
        assert(so_far + seq![digit_char((n % 10) as int)] =~= old(out)@ + decimal(n as nat));
    }
}

/// Appends the last `width` hexadecimal digits of `n`.
pub fn push_hex(out: &mut String, n: u64, width: u64)
    ensures
        final(out)@ == old(out)@ + hex(n as nat, width as nat),
    decreases width,
{
    if width == 0 {
        assert(out@ =~= old(out)@ + hex(n as nat, 0));
    } else {
        push_hex(out, n / 16, width - 1);
        let ghost so_far = out@;
        out.append(digit(n % 16));
        assert(so_far + seq![digit_char((n % 16) as int)] =~= old(out)@ + hex(
            n as nat,
            width as nat,
        ));
    }
}

/// Appends `true` or `false`.
pub fn push_boolean(out: &mut String, b: bool)
    ensures
        final(out)@ == old(out)@ + boolean(b),
{
    if b {
        out.append("true");
    } else {
        out.append("false");
    }
}

/// Appends a list of booleans in square brackets.
pub fn push_boolean_list(out: &mut String, items: &[bool])
    ensures
        final(out)@ == old(out)@ + boolean_list(items@),
{
    let ghost start = out@;
    out.append("[");
    let ghost opened = out@;
    let mut i: usize = 0;
    assert(items@.take(0) =~= Seq::<bool>::empty());
    assert(opened =~= opened + joined_booleans(items@.take(0)));
    while i < items.len()
        invariant
            i <= items@.len(),
            out@ == opened + joined_booleans(items@.take(i as int)),
        decreases items@.len() - i,
    {
        if i > 0 {
            out.append(", ");
        }
        push_boolean(out, items[i]);
        assert(items@.take(i + 1).drop_last() =~= items@.take(i as int));
        assert(out@ =~= opened + joined_booleans(items@.take(i + 1)));
        i = i + 1;
    }
    assert(items@.take(i as int) =~= items@);
    out.append("]");
    assert(out@ =~= start + boolean_list(items@));
}

/// Appends a list of numbers in square brackets.
pub fn push_number_list(out: &mut String, items: &[u16])
    ensures
        final(out)@ == old(out)@ + number_list(items@),
{
    let ghost start = out@;
    out.append("[");
    let ghost opened = out@;
    let mut i: usize = 0;
    assert(items@.take(0) =~= Seq::<u16>::empty());
    assert(opened =~= opened + joined_numbers(items@.take(0)));
    while i < items.len()
        invariant
            i <= items@.len(),
            out@ == opened + joined_numbers(items@.take(i as int)),
        decreases items@.len() - i,
    {
        if i > 0 {
            out.append(", ");
        }
        push_decimal(out, items[i] as u64);
        assert(items@.take(i + 1).drop_last() =~= items@.take(i as int));
        assert(out@ =~= opened + joined_numbers(items@.take(i + 1)));
        i = i + 1;
    }
    assert(items@.take(i as int) =~= items@);
    out.append("]");
    assert(out@ =~= start + number_list(items@));
}

/// The number that the digit `c` stands for.
pub open spec fn digit_value(c: char) -> int {
    if c as int <= 57 {
        c as int - 48
    } else {
        c as int - 87
    }
}

/// The number that `digits` stand for in positional notation with the given base.
pub open spec fn numeral_value(digits: Seq<char>, base: int) -> int
    decreases digits.len(),
{
    if digits.len() == 0 {
        0
    } else {
        numeral_value(digits.drop_last(), base) * base + digit_value(digits.last())
    }
}

/// A decimal numeral stands for its number, consists of the digits from `0` to `9`
/// and, but for zero itself, does not begin with a zero.
pub proof fn decimal_reads_back(n: nat)
    ensures
        numeral_value(decimal(n), 10) == n,
        decimal(n).len() > 0,
        forall|i: int| 0 <= i < decimal(n).len() ==> '0' <= #[trigger] decimal(n)[i] <= '9',
        n > 0 ==> decimal(n)[0] != '0',
        n == 0 ==> decimal(n) == seq!['0'],
    decreases n,
{
    reveal_with_fuel(numeral_value, 2);
    if n < 10 {
        assert(decimal(n).drop_last() =~= Seq::<char>::empty());
    } else {
        decimal_reads_back(n / 10);
        assert(decimal(n).drop_last() =~= decimal(n / 10));
    }
}

/// Different numbers have different decimal numerals.
pub proof fn decimals_differ(first: nat, second: nat)
    requires
        decimal(first) == decimal(second),
    ensures
        first == second,
{
    decimal_reads_back(first);
    decimal_reads_back(second);
}

/// A byte in hexadecimal has two digits, a word has four. They are digits from `0`
/// to `9` or lower-case letters from `a` to `f`, and stand for the number.
pub proof fn hex_reads_back(n: nat)
    ensures
        n < 0x100 ==> hex(n, 2).len() == 2 && numeral_value(hex(n, 2), 16) == n,
        n < 0x1_0000 ==> hex(n, 4).len() == 4 && numeral_value(hex(n, 4), 16) == n,
        forall|width: nat, i: int|
            0 <= i < hex(n, width).len() ==> ('0' <= #[trigger] hex(n, width)[i] <= '9' || 'a'
                <= hex(n, width)[i] <= 'f'),
{
    assert forall|width: nat, i: int| 0 <= i < hex(n, width).len() implies ('0'
        <= #[trigger] hex(n, width)[i] <= '9' || 'a' <= hex(n, width)[i] <= 'f') by {
        hex_digits(n, width);
    }
    hex_value(n, 2);
    hex_value(n, 4);
    reveal_with_fuel(sixteen_to_the, 5);
}

/// Sixteen to the power of `width`.
spec fn sixteen_to_the(width: nat) -> int
    decreases width,
{
    if width == 0 {
        1
    } else {
        16 * sixteen_to_the((width - 1) as nat)
    }
}

/// What hexadecimal digits look like.
proof fn hex_digits(n: nat, width: nat)
    ensures
        hex(n, width).len() == width,
        forall|i: int|
            0 <= i < width ==> ('0' <= #[trigger] hex(n, width)[i] <= '9' || 'a' <= hex(n, width)[i]
                <= 'f'),
    decreases width,
{
    if width > 0 {
        hex_digits(n / 16, (width - 1) as nat);
    }
}

/// What hexadecimal digits stand for, where they are enough.
proof fn hex_value(n: nat, width: nat)
    ensures
        hex(n, width).len() == width,
        n < sixteen_to_the(width) ==> numeral_value(hex(n, width), 16) == n,
    decreases width,
{
    if width > 0 {
        hex_value(n / 16, (width - 1) as nat);
        assert(hex(n, width).drop_last() =~= hex(n / 16, (width - 1) as nat));
    }
}

/// The two booleans as they are written.
pub proof fn booleans_are_written_out()
    ensures
        boolean(true) == seq!['t', 'r', 'u', 'e'],
        boolean(false) == seq!['f', 'a', 'l', 's', 'e'],
{
    reveal_strlit("true");
    reveal_strlit("false");
    assert("true"@ =~= seq!['t', 'r', 'u', 'e']);
    assert("false"@ =~= seq!['f', 'a', 'l', 's', 'e']);
}

/// A list of booleans stands between square brackets, and two lists one after the
/// other are joined by a comma and a space; no item is left out.
pub proof fn boolean_lists_join(first: Seq<bool>, second: Seq<bool>, item: bool)
    ensures
        boolean_list(first) == seq!['['] + joined_booleans(first) + seq![']'],
        joined_booleans(Seq::<bool>::empty()) == Seq::<char>::empty(),
        joined_booleans(seq![item]) == boolean(item),
        first.len() > 0 && second.len() > 0 ==> joined_booleans(first + second)
            == joined_booleans(first) + seq![',', ' '] + joined_booleans(second),
    decreases second.len(),
{
    reveal_strlit("[");
    reveal_strlit("]");
    reveal_strlit(", ");
    assert("["@ =~= seq!['[']);
    assert("]"@ =~= seq![']']);
    assert(", "@ =~= seq![',', ' ']);
    if first.len() > 0 && second.len() > 0 {
        assert((first + second).drop_last() =~= first + second.drop_last());
        if second.len() > 1 {
            boolean_lists_join(first, second.drop_last(), item);
            assert(joined_booleans(first + second) =~= joined_booleans(first) + seq![',', ' ']
                + joined_booleans(second));
        } else {
            assert(first + second.drop_last() =~= first);
        }
    }
}

/// A list of numbers stands between square brackets, and two lists one after the
/// other are joined by a comma and a space; no item is left out.
pub proof fn number_lists_join(first: Seq<u16>, second: Seq<u16>, item: u16)
    ensures
        number_list(first) == seq!['['] + joined_numbers(first) + seq![']'],
        joined_numbers(Seq::<u16>::empty()) == Seq::<char>::empty(),
        joined_numbers(seq![item]) == decimal(item as nat),
        first.len() > 0 && second.len() > 0 ==> joined_numbers(first + second) == joined_numbers(
            first,
        ) + seq![',', ' '] + joined_numbers(second),
    decreases second.len(),
{
    reveal_strlit("[");
    reveal_strlit("]");
    reveal_strlit(", ");
    assert("["@ =~= seq!['[']);
    assert("]"@ =~= seq![']']);
    assert(", "@ =~= seq![',', ' ']);
    if first.len() > 0 && second.len() > 0 {
        assert((first + second).drop_last() =~= first + second.drop_last());
        if second.len() > 1 {
            number_lists_join(first, second.drop_last(), item);
            assert(joined_numbers(first + second) =~= joined_numbers(first) + seq![',', ' ']
                + joined_numbers(second));
        } else {
            assert(first + second.drop_last() =~= first);
        }
    }
}

} // verus!
