//! Key slots of the secure element and the Parsec keys that stand behind them.
//!
//! The driver keeps no table of its own: the slot of a key is its PSA key
//! identifier, and the key that holds the material in Parsec is named after
//! the slot, in decimal, behind a fixed prefix.
use vstd::prelude::*;
use vstd::string::*;

use crate::status::PSA_SUCCESS;

verus! {

/// The text in front of the slot number in the name of every Parsec key that
/// the driver creates.
pub const KEY_NAME_PREFIX: &'static str = "parsec-se-driver-key";

/// The character of a decimal digit.
pub open spec fn digit_char(d: nat) -> char {
    if d == 0 {
        '0'
    } else if d == 1 {
        '1'
    } else if d == 2 {
        '2'
    } else if d == 3 {
        '3'
    } else if d == 4 {
        '4'
    } else if d == 5 {
        '5'
    } else if d == 6 {
        '6'
    } else if d == 7 {
        '7'
    } else if d == 8 {
        '8'
    } else {
        '9'
    }
}

/// The decimal representation of a number, most significant digit first and
/// without leading zeros.
pub open spec fn decimal(n: nat) -> Seq<char>
    decreases n,
{
    if n < 10 {
        seq![digit_char(n)]
    } else {
        decimal(n / 10).push(digit_char(n % 10))
    }
}

/// The value of a decimal digit character, read by its code point.
pub open spec fn digit_value(c: char) -> int {
    (c as int) - ('0' as int)
}

/// The number that a string of decimal digits spells, most significant digit
/// first.
pub open spec fn read_decimal(digits: Seq<char>) -> int
    decreases digits.len(),
{
    if digits.len() == 0 {
        0
    } else {
        read_decimal(digits.drop_last()) * 10 + digit_value(digits.last())
    }
}

/// The name of the Parsec key that stands behind a key slot.
pub open spec fn key_name(key_slot: u64) -> Seq<char> {
    KEY_NAME_PREFIX@ + decimal(key_slot as nat)
}

/// The slot in which the driver places the key with a PSA key identifier.
pub open spec fn allocated_slot(key_id: u32) -> u64 {
    key_id as u64
}

fn digit_str(d: u64) -> (s: &'static str)
    requires
        d < 10,
    ensures
        s@ == seq![digit_char(d as nat)],
{
    if d == 0 {
        proof {
            reveal_strlit("0");
        }
        "0"
    } else if d == 1 {
        proof {
            reveal_strlit("1");
        }
        "1"
    } else if d == 2 {
        proof {
            reveal_strlit("2");
        }
        "2"
    } else if d == 3 {
        proof {
            reveal_strlit("3");
        }
        "3"
    } else if d == 4 {
        proof {
            reveal_strlit("4");
        }
        "4"
    } else if d == 5 {
        proof {
            reveal_strlit("5");
        }
        "5"
    } else if d == 6 {
        proof {
            reveal_strlit("6");
        }
        "6"
    } else if d == 7 {
        proof {
            reveal_strlit("7");
        }
        "7"
    } else if d == 8 {
        proof {
            reveal_strlit("8");
        }
        "8"
    } else {
        proof {
            reveal_strlit("9");
        }
        "9"
    }
}

fn push_decimal(text: &mut String, n: u64)
    ensures
        final(text)@ == old(text)@ + decimal(n as nat),
    decreases n,
{
    if n >= 10 {
        push_decimal(text, n / 10);
    }
    text.append(digit_str(n % 10));
    proof {
        if n >= 10 {
            assert(decimal(n as nat) == decimal((n / 10) as nat).push(digit_char((n % 10) as nat)));
            assert(old(text)@ + decimal(n as nat) =~= old(text)@ + decimal((n / 10) as nat)
                + seq![digit_char((n % 10) as nat)]);
        } else {
            assert(n % 10 == n);
            assert(old(text)@ + decimal(n as nat) =~= old(text)@ + seq![digit_char(n as nat)]);
        }
    }
}

/// The name of the Parsec key that holds the material of the key in a slot.
pub fn key_slot_to_key_name(key_slot: u64) -> (name: String)
    ensures
        name@ == key_name(key_slot),
        name@.subrange(0, KEY_NAME_PREFIX@.len() as int) == KEY_NAME_PREFIX@,
        read_decimal(name@.subrange(KEY_NAME_PREFIX@.len() as int, name@.len() as int))
            == key_slot,
{
    proof {
        lemma_key_name_reads_back(key_slot);
    }
    let mut name = String::from_str(KEY_NAME_PREFIX);
    push_decimal(&mut name, key_slot);
    name
}

/// Picks the slot for a new key: the slot number is the key's PSA identifier.
pub fn allocate_key_slot(key_id: u32) -> (key_slot: u64)
    ensures
        key_slot == allocated_slot(key_id),
        key_slot as int == key_id as int,
{
    key_id as u64
}

/// Checks a slot number that the PSA Crypto implementation chose itself:
/// every slot is accepted, since any slot number names a Parsec key.
pub fn validate_key_slot(key_slot: u64) -> (status: i32)
    ensures
        status == PSA_SUCCESS,
{
    PSA_SUCCESS
}

proof fn lemma_digit_char_injective(a: nat, b: nat)
    requires
        a < 10,
        b < 10,
        digit_char(a) == digit_char(b),
    ensures
        a == b,
{
}

proof fn lemma_decimal_len(n: nat)
    ensures
        decimal(n).len() >= 1,
        n >= 10 ==> decimal(n).len() >= 2,
    decreases n,
{
    if n >= 10 {
        lemma_decimal_len(n / 10);
    }
}

/// Different numbers have different decimal representations.
pub proof fn lemma_decimal_injective(a: nat, b: nat)
    requires
        decimal(a) == decimal(b),
    ensures
        a == b,
    decreases a,
{
    lemma_decimal_len(a);
    lemma_decimal_len(b);
    if a < 10 && b < 10 {
        assert(decimal(a)[0] == digit_char(a));
        assert(decimal(b)[0] == digit_char(b));
        lemma_digit_char_injective(a, b);
    } else if a < 10 {
        lemma_decimal_len(b / 10);
        assert(decimal(b).len() == decimal(b / 10).len() + 1);
    } else if b < 10 {
        lemma_decimal_len(a / 10);
        assert(decimal(a).len() == decimal(a / 10).len() + 1);
    } else {
        let da = decimal(a);
        let db = decimal(b);
        assert(da.last() == digit_char(a % 10));
        assert(db.last() == digit_char(b % 10));
        lemma_digit_char_injective(a % 10, b % 10);
        assert(da.drop_last() =~= decimal(a / 10));
        assert(db.drop_last() =~= decimal(b / 10));
        lemma_decimal_injective(a / 10, b / 10);
    }
}

/// Different key slots stand for different Parsec keys.
pub proof fn lemma_key_names_distinct(a: u64, b: u64)
    requires
        a != b,
    ensures
        key_name(a) != key_name(b),
{
    let p = KEY_NAME_PREFIX@;
    if key_name(a) == key_name(b) {
        assert(key_name(a).subrange(p.len() as int, key_name(a).len() as int) =~= decimal(
            a as nat,
        ));
        assert(key_name(b).subrange(p.len() as int, key_name(b).len() as int) =~= decimal(
            b as nat,
        ));
        lemma_decimal_injective(a as nat, b as nat);
    }
}

/// Keys with different PSA identifiers are placed in different slots, and so
/// are held by different Parsec keys.
pub proof fn lemma_allocated_keys_distinct(id_a: u32, id_b: u32)
    requires
        id_a != id_b,
    ensures
        allocated_slot(id_a) != allocated_slot(id_b),
        key_name(allocated_slot(id_a)) != key_name(allocated_slot(id_b)),
{
    lemma_key_names_distinct(allocated_slot(id_a), allocated_slot(id_b));
}

/// Every key name is the prefix followed by decimal digits only.
pub proof fn lemma_key_name_shape(key_slot: u64)
    ensures
        key_name(key_slot).subrange(0, KEY_NAME_PREFIX@.len() as int) == KEY_NAME_PREFIX@,
        forall|i: int|
            KEY_NAME_PREFIX@.len() <= i < key_name(key_slot).len() ==> '0' <= #[trigger] key_name(
                key_slot,
            )[i] <= '9',
{
    lemma_decimal_digits(key_slot as nat);
    assert(key_name(key_slot).subrange(0, KEY_NAME_PREFIX@.len() as int) =~= KEY_NAME_PREFIX@);
    assert forall|i: int|
        KEY_NAME_PREFIX@.len() <= i < key_name(key_slot).len() implies '0' <= #[trigger] key_name(
        key_slot,
    )[i] <= '9' by {
        assert(key_name(key_slot)[i] == decimal(key_slot as nat)[i - KEY_NAME_PREFIX@.len()]);
    }
}

proof fn lemma_decimal_digits(n: nat)
    ensures
        forall|i: int| 0 <= i < decimal(n).len() ==> '0' <= #[trigger] decimal(n)[i] <= '9',
    decreases n,
{
    if n >= 10 {
        lemma_decimal_digits(n / 10);
        assert forall|i: int| 0 <= i < decimal(n).len() implies '0' <= #[trigger] decimal(n)[i]
            <= '9' by {
            if i < decimal(n / 10).len() {
                assert(decimal(n)[i] == decimal(n / 10)[i]);
            }
        }
    }
}

} // verus!

verus! {

proof fn lemma_decimal_reads_back(n: nat)
    ensures
        read_decimal(decimal(n)) == n,
    decreases n,
{
    if n < 10 {
        let d = decimal(n);
        assert(d.drop_last() =~= Seq::<char>::empty());
        assert(d.last() == digit_char(n));
        assert(digit_value(digit_char(n)) == n);
        assert(read_decimal(d) == read_decimal(d.drop_last()) * 10 + digit_value(d.last()));
        assert(read_decimal(d.drop_last()) == 0);
    } else {
        lemma_decimal_reads_back(n / 10);
        let d = decimal(n);
        assert(d.drop_last() =~= decimal(n / 10));
        assert(d.last() == digit_char(n % 10));
        assert(digit_value(digit_char(n % 10)) == n % 10);
        assert(read_decimal(d) == read_decimal(d.drop_last()) * 10 + digit_value(d.last()));
        assert((n / 10) * 10 + n % 10 == n);
    }
}

/// The name of a key slot is the prefix followed by digits that, read in base
/// ten, give back the slot number itself; there is no leading zero, except in
/// the name of slot zero.
pub proof fn lemma_key_name_reads_back(key_slot: u64)
    ensures
        key_name(key_slot).subrange(0, KEY_NAME_PREFIX@.len() as int) == KEY_NAME_PREFIX@,
        key_name(key_slot).len() > KEY_NAME_PREFIX@.len(),
        read_decimal(
            key_name(key_slot).subrange(KEY_NAME_PREFIX@.len() as int, key_name(key_slot).len() as int),
        ) == key_slot,
        key_name(key_slot)[KEY_NAME_PREFIX@.len() as int] == '0' ==> key_slot == 0,
{
    let p = KEY_NAME_PREFIX@;
    let k = key_name(key_slot);
    assert(k.subrange(0, p.len() as int) =~= p);
    assert(k.subrange(p.len() as int, k.len() as int) =~= decimal(key_slot as nat));
    lemma_decimal_len(key_slot as nat);
    lemma_decimal_reads_back(key_slot as nat);
    lemma_decimal_no_leading_zero(key_slot as nat);
    assert(k[p.len() as int] == decimal(key_slot as nat)[0]);
}

proof fn lemma_decimal_no_leading_zero(n: nat)
    ensures
        decimal(n)[0] == '0' ==> n == 0,
    decreases n,
{
    if n >= 10 {
        lemma_decimal_len(n / 10);
        lemma_decimal_no_leading_zero(n / 10);
        assert(decimal(n)[0] == decimal(n / 10)[0]);
    }
}

/// The slot of a new key is its PSA key identifier, unchanged.
pub proof fn lemma_allocated_slot_is_key_id(key_id: u32)
    ensures
        allocated_slot(key_id) as int == key_id as int,
        key_name(allocated_slot(key_id)) == KEY_NAME_PREFIX@ + decimal(key_id as nat),
{
}

} // verus!
