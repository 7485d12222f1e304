//! Lowercase hexadecimal rendering of byte strings and decimal rendering of
//! integers. The store records a file's digest as lowercase hex and its byte
//! size as a decimal string, so these encodings are part of the on-disk
//! contract.

use vstd::prelude::*;
use vstd::string::StringExecFns;

use crate::digits::hex_char;
use crate::digits::hex_digit_str;

verus! {

/// The lowercase hexadecimal rendering of a byte string: two digits per byte,
/// high nibble first.
pub open spec fn hex_of(bytes: Seq<u8>) -> Seq<char>
    decreases bytes.len(),
{
    if bytes.len() == 0 {
        Seq::empty()
    } else {
        hex_of(bytes.drop_last()) + seq![
            hex_char(bytes.last() as int / 16),
            hex_char(bytes.last() as int % 16),
        ]
    }
}

pub proof fn lemma_hex_of_len(bytes: Seq<u8>)
    ensures
        hex_of(bytes).len() == 2 * bytes.len(),
    decreases bytes.len(),
{
    if bytes.len() > 0 {
        lemma_hex_of_len(bytes.drop_last());
    }
}

/// The decimal rendering of a non-negative integer, without leading zeros
/// (a single zero for zero itself).
pub open spec fn dec_of(n: nat) -> Seq<char>
    decreases n,
{
    if n < 10 {
        seq![hex_char(n as int)]
    } else {
        dec_of(n / 10) + seq![hex_char((n % 10) as int)]
    }
}

/// The ten decimal digit characters.
pub open spec fn is_digit_char(c: char) -> bool {
    ||| c == '0'
    ||| c == '1'
    ||| c == '2'
    ||| c == '3'
    ||| c == '4'
    ||| c == '5'
    ||| c == '6'
    ||| c == '7'
    ||| c == '8'
    ||| c == '9'
}

pub proof fn lemma_dec_of_digits(n: nat)
    ensures
        dec_of(n).len() >= 1,
        forall|i: int| 0 <= i < dec_of(n).len() ==> is_digit_char(#[trigger] dec_of(n)[i]),
    decreases n,
{
    if n >= 10 {
        lemma_dec_of_digits(n / 10);
    }
}

/// Decimal strings are never zero-padded, so the rendering is injective: two
/// integers with the same decimal string are the same integer.
pub proof fn lemma_dec_of_injective(a: nat, b: nat)
    requires
        dec_of(a) == dec_of(b),
    ensures
        a == b,
    decreases a,
{
    lemma_dec_of_digits(a);
    lemma_dec_of_digits(b);
    if a < 10 && b < 10 {
        assert(dec_of(a) == seq![hex_char(a as int)]);
        assert(dec_of(b) == seq![hex_char(b as int)]);
        assert(seq![hex_char(a as int)][0] == hex_char(a as int));
        assert(seq![hex_char(b as int)][0] == hex_char(b as int));
        assert(hex_char(a as int) == hex_char(b as int));
    } else if a >= 10 && b >= 10 {
        let sa = dec_of(a / 10);
        let sb = dec_of(b / 10);
        assert(sa.len() == sb.len());
        assert(sa =~= sb) by {
            assert forall|i: int| 0 <= i < sa.len() implies sa[i] == sb[i] by {
                assert(dec_of(a)[i] == sa[i]);
                assert(dec_of(b)[i] == sb[i]);
            }
        }
        assert(dec_of(a) == sa + seq![hex_char((a % 10) as int)]);
        assert(dec_of(b) == sb + seq![hex_char((b % 10) as int)]);
        assert((sa + seq![hex_char((a % 10) as int)]).last() == hex_char((a % 10) as int));
        assert((sb + seq![hex_char((b % 10) as int)]).last() == hex_char((b % 10) as int));
        assert(hex_char((a % 10) as int) == hex_char((b % 10) as int));
        assert(a % 10 == b % 10);
        lemma_dec_of_injective(a / 10, b / 10);
    } else if a < 10 {
        lemma_dec_of_digits(b / 10);
        assert(dec_of(b).len() >= 2);
        assert(false);
    } else {
        lemma_dec_of_digits(a / 10);
        assert(dec_of(a).len() >= 2);
        assert(false);
    }
}

/// Renders a byte string as lowercase hexadecimal, two digits per byte.
pub fn to_hex_lower(bytes: &Vec<u8>) -> (r: String)
    ensures
        r@ == hex_of(bytes@),
        r@.len() == 2 * bytes@.len(),
{
    let mut s = String::new();
    let mut i: usize = 0;
    while i < bytes.len()
        invariant
            i <= bytes@.len(),
            s@ == hex_of(bytes@.take(i as int)),
        decreases bytes@.len() - i,
    {
        let b = bytes[i];
        s.append(hex_digit_str(b / 16));
        s.append(hex_digit_str(b % 16));
        i = i + 1;
        proof {
            let pref = bytes@.take(i as int);
            assert(pref.drop_last() =~= bytes@.take(i as int - 1));
            assert(s@ =~= hex_of(pref));
        }
    }
    proof {
        assert(bytes@.take(bytes@.len() as int) =~= bytes@);
        lemma_hex_of_len(bytes@);
    }
    s
}

/// Renders an unsigned integer as its decimal string.
pub fn u64_to_decimal(n: u64) -> (r: String)
    ensures
        r@ == dec_of(n as nat),
    decreases n,
{
    if n < 10 {
        let mut s = String::new();
        s.append(hex_digit_str(n as u8));
        proof {
            assert(s@ =~= dec_of(n as nat));
        }
        s
    } else {
        let mut s = u64_to_decimal(n / 10);
        s.append(hex_digit_str((n % 10) as u8));
        proof {
            assert(s@ =~= dec_of(n as nat));
        }
        s
    }
}

} // verus!
