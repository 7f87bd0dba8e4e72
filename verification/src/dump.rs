// The diagnostic dump of the register file as ASCII text.

use vstd::prelude::*;

verus! {

/// The ASCII character of a decimal digit.
pub open spec fn digit(d: nat) -> u8 {
    (0x30 + d) as u8
}

/// The decimal numeral of `n` in ASCII, without leading zeros.
pub open spec fn decimal(n: nat) -> Seq<u8>
    decreases n,
{
    if n < 10 {
        seq![digit(n)]
    } else {
        decimal(n / 10).push(digit(n % 10))
    }
}

/// The entry of one register: `R`, the index, ` : `, the value and a tab.
pub open spec fn register_entry(index: nat, value: u32) -> Seq<u8> {
    seq![0x52u8] + decimal(index) + seq![0x20u8, 0x3Au8, 0x20u8] + decimal(value as nat)
        + seq![0x09u8]
}

/// The entries of the first `count` registers, in the order of their indices.
pub open spec fn register_dump(registers: Seq<u32>, count: nat) -> Seq<u8>
    decreases count,
{
    if count == 0 {
        Seq::empty()
    } else {
        register_dump(registers, (count - 1) as nat) + register_entry(
            (count - 1) as nat,
            registers[count - 1],
        )
    }
}

/// Appends the decimal numeral of `value`.
pub fn push_decimal(out: &mut Vec<u8>, value: u32)
    ensures
        final(out)@ == old(out)@ + decimal(value as nat),
    decreases value,
{
    if value >= 10 {
        push_decimal(out, value / 10);
    }
    out.push(0x30 + (value % 10) as u8);
    assert(out@ =~= old(out)@ + decimal(value as nat));
}

/// Appends the entry of one register.
pub fn push_register_entry(out: &mut Vec<u8>, index: u32, value: u32)
    ensures
        final(out)@ == old(out)@ + register_entry(index as nat, value),
{
    out.push(0x52);
    push_decimal(out, index);
    out.push(0x20);
    out.push(0x3A);
    out.push(0x20);
    push_decimal(out, value);
    out.push(0x09);
    assert(out@ =~= old(out)@ + register_entry(index as nat, value));
}

} // verus!
