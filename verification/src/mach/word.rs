//! Machine words as bytes.

use crate::layout::USIZE_SIZE;
use vstd::arithmetic::power::pow;
use vstd::prelude::*;

verus! {

/// The order of the bytes of a number.
#[derive(Clone, Copy, PartialEq, Eq, Structural, Debug)]
pub enum Endian {
    Little,
    Big,
}

/// The `count` least significant bytes of a number, the least significant one first.
pub open spec fn little_bytes(x: nat, count: nat) -> Seq<u8>
    decreases count,
{
    if count == 0 {
        Seq::empty()
    } else {
        seq![(x % 256) as u8] + little_bytes(x / 256, (count - 1) as nat)
    }
}

/// The number with these bytes, the least significant one first.
pub open spec fn little_value(bytes: Seq<u8>) -> nat
    decreases bytes.len(),
{
    if bytes.len() == 0 {
        0
    } else {
        bytes[0] as nat + 256 * little_value(bytes.skip(1))
    }
}

/// The `count` least significant bytes of a number.
pub open spec fn number_bytes(x: nat, count: nat, endian: Endian) -> Seq<u8> {
    match endian {
        Endian::Little => little_bytes(x, count),
        Endian::Big => little_bytes(x, count).reverse(),
    }
}

/// The number with these bytes.
pub open spec fn number_value(bytes: Seq<u8>, endian: Endian) -> nat {
    match endian {
        Endian::Little => little_value(bytes),
        Endian::Big => little_value(bytes.reverse()),
    }
}

/// A number of bytes has that many bytes, and its value fits into them.
pub proof fn lemma_little(x: nat, bytes: Seq<u8>, count: nat)
    ensures
        little_bytes(x, count).len() == count,
        little_value(bytes) < pow(256, bytes.len()),
        x < pow(256, count) ==> little_value(little_bytes(x, count)) == x,
    decreases count + bytes.len(),
{
    reveal(pow);
    if count > 0 {
        let rest = little_bytes(x / 256, (count - 1) as nat);
        lemma_little(x / 256, Seq::empty(), (count - 1) as nat);
        assert(little_bytes(x, count).skip(1) =~= rest);
        assert(pow(256, count) == 256 * pow(256, (count - 1) as nat));
        assert(x == 256 * (x / 256) + x % 256);
    }
    if bytes.len() > 0 {
        lemma_little(0, bytes.skip(1), 0);
        assert(pow(256, bytes.len()) == 256 * pow(256, (bytes.len() - 1) as nat));
    }
}

/// The bytes of a number that fits into them give the number back.
pub proof fn bytes_give_number_back(x: nat, count: nat, endian: Endian)
    requires
        x < pow(256, count),
    ensures
        number_bytes(x, count, endian).len() == count,
        number_value(number_bytes(x, count, endian), endian) == x,
{
    lemma_little(x, Seq::empty(), count);
    assert(little_bytes(x, count).reverse().reverse() =~= little_bytes(x, count));
}

/// Every word fits into the bytes of a word, and what the bytes of a word hold is a word.
pub proof fn lemma_word_range()
    ensures
        pow(256, USIZE_SIZE as nat) == usize::MAX + 1,
        pow(256, 4) == 0x1_0000_0000,
{
    reveal_with_fuel(pow, 9);
    assert(pow(256, 4) == 256 * (256 * (256 * (256 * 1)))) by {
        reveal_with_fuel(pow, 5);
    }
    assert(pow(256, 8) == 256 * (256 * (256 * (256 * pow(256, 4))))) by {
        reveal_with_fuel(pow, 9);
    }
    assert(USIZE_SIZE == 4 || USIZE_SIZE == 8);
}

/// The bytes of a word.
pub fn word_bytes(x: usize, endian: Endian) -> (bytes: Vec<u8>)
    ensures
        bytes@ == number_bytes(x as nat, USIZE_SIZE as nat, endian),
        bytes@.len() == USIZE_SIZE,
{
    let mut little: Vec<u8> = Vec::new();
    let mut rest: usize = x;
    let mut i: usize = 0;
    proof {
        lemma_little(x as nat, Seq::empty(), USIZE_SIZE as nat);
    }
    while i < USIZE_SIZE
        invariant
            i <= USIZE_SIZE,
            little@.len() == i,
            little@ + little_bytes(rest as nat, (USIZE_SIZE - i) as nat) == little_bytes(x as nat, USIZE_SIZE as nat),
        decreases USIZE_SIZE - i,
    {
        let ghost before = little@;
        let ghost tail = little_bytes(rest as nat, (USIZE_SIZE - i) as nat);
        little.push((rest % 256) as u8);
        rest = rest / 256;
        i = i + 1;
        assert(before + tail =~= little@ + little_bytes(rest as nat, (USIZE_SIZE - i) as nat));
    }
    assert(little@ =~= little_bytes(x as nat, USIZE_SIZE as nat));
    match endian {
        Endian::Little => little,
        Endian::Big => reversed(little.as_slice()),
    }
}

/// The word with these bytes.
pub fn word_value(bytes: &[u8], endian: Endian) -> (x: usize)
    requires
        bytes@.len() == USIZE_SIZE,
    ensures
        x == number_value(bytes@, endian),
{
    let ghost little = match endian {
        Endian::Little => bytes@,
        Endian::Big => bytes@.reverse(),
    };
    proof {
        lemma_word_range();
        lemma_little(0, little, 0);
        assert(little.skip(USIZE_SIZE as int) =~= Seq::<u8>::empty());
    }
    let mut x: usize = 0;
    let mut i: usize = USIZE_SIZE;
    while i > 0
        invariant
            i <= USIZE_SIZE,
            bytes@.len() == USIZE_SIZE,
            little == (match endian {
                Endian::Little => bytes@,
                Endian::Big => bytes@.reverse(),
            }),
            x == little_value(little.skip(i as int)),
            little_value(little) <= usize::MAX,
        decreases i,
    {
        proof {
            lemma_suffix_is_smaller(little, (i - 1) as nat);
            assert(little.skip(i - 1).skip(1) =~= little.skip(i as int));
        }
        i = i - 1;
        let byte: u8 = match endian {
            Endian::Little => bytes[i],
            Endian::Big => bytes[USIZE_SIZE - 1 - i],
        };
        x = byte as usize + 256 * x;
    }
    assert(little.skip(0) =~= little);
    x
}

/// The upper bytes of a number are worth no more than the number.
proof fn lemma_suffix_is_smaller(bytes: Seq<u8>, from: nat)
    requires
        from <= bytes.len(),
    ensures
        little_value(bytes.skip(from as int)) <= little_value(bytes),
    decreases from,
{
    if from == 0 {
        assert(bytes.skip(0) =~= bytes);
    } else {
        lemma_suffix_is_smaller(bytes, (from - 1) as nat);
        assert(bytes.skip(from - 1).skip(1) =~= bytes.skip(from as int));
    }
}

/// Bytes in reverse order.
fn reversed(bytes: &[u8]) -> (reverse: Vec<u8>)
    ensures
        reverse@ == bytes@.reverse(),
{
    let mut reverse: Vec<u8> = Vec::new();
    let mut i: usize = bytes.len();
    while i > 0
        invariant
            i <= bytes@.len(),
            reverse@ == bytes@.reverse().take(bytes@.len() - i),
        decreases i,
    {
        i = i - 1;
        reverse.push(bytes[i]);
        assert(reverse@ =~= bytes@.reverse().take(bytes@.len() - i));
    }
    assert(reverse@ =~= bytes@.reverse());
    reverse
}

} // verus!
