//! Wall-clock timestamps for records. A moment is the pair (seconds since the
//! Unix epoch, nanoseconds within the second); it is stored as the text
//! `<seconds>.<nanoseconds>`, both plain decimal, the seconds with a leading
//! `-` when negative. Decimal strings hold no `.`, so the encoding splits
//! uniquely at its single dot and round-trips losslessly.

use vstd::prelude::*;
use vstd::string::StringExecFns;

use crate::encoding::dec_of;
use crate::encoding::is_digit_char;
use crate::encoding::lemma_dec_of_digits;
use crate::encoding::lemma_dec_of_injective;
use crate::encoding::u64_to_decimal;

verus! {

/// The decimal rendering of an integer of either sign.
pub open spec fn int_dec_of(n: int) -> Seq<char> {
    if n >= 0 {
        dec_of(n as nat)
    } else {
        seq!['-'] + dec_of((-n) as nat)
    }
}

/// The stored text of the moment (`secs`, `nanos`):
/// `<secs>.<nanos>`, both decimal.
pub open spec fn timestamp_text_of(secs: int, nanos: nat) -> Seq<char> {
    int_dec_of(secs) + seq!['.'] + dec_of(nanos)
}

proof fn lemma_int_dec_of_no_dot(n: int)
    ensures
        int_dec_of(n).len() >= 1,
        forall|i: int| 0 <= i < int_dec_of(n).len() ==> #[trigger] int_dec_of(n)[i] != '.',
{
    if n >= 0 {
        lemma_dec_of_digits(n as nat);
    } else {
        lemma_dec_of_digits((-n) as nat);
        assert forall|i: int| 0 <= i < int_dec_of(n).len() implies #[trigger] int_dec_of(n)[i]
            != '.' by {
            if i == 0 {
                assert(int_dec_of(n)[0] == '-');
            } else {
                assert(int_dec_of(n)[i] == dec_of((-n) as nat)[i - 1]);
                assert(is_digit_char(dec_of((-n) as nat)[i - 1]));
            }
        }
    }
}

proof fn lemma_int_dec_of_injective(a: int, b: int)
    requires
        int_dec_of(a) == int_dec_of(b),
    ensures
        a == b,
{
    if a >= 0 && b >= 0 {
        lemma_dec_of_injective(a as nat, b as nat);
    } else if a < 0 && b < 0 {
        let da = dec_of((-a) as nat);
        let db = dec_of((-b) as nat);
        assert(int_dec_of(a) == seq!['-'] + da);
        assert(int_dec_of(b) == seq!['-'] + db);
        assert((seq!['-'] + da).len() == 1 + da.len());
        assert((seq!['-'] + db).len() == 1 + db.len());
        assert(da =~= db) by {
            assert forall|i: int| 0 <= i < da.len() implies da[i] == db[i] by {
                assert((seq!['-'] + da)[i + 1] == da[i]);
                assert((seq!['-'] + db)[i + 1] == db[i]);
            }
        }
        lemma_dec_of_injective((-a) as nat, (-b) as nat);
    } else if a >= 0 {
        lemma_dec_of_digits(a as nat);
        assert(int_dec_of(a)[0] == dec_of(a as nat)[0]);
        assert(is_digit_char(int_dec_of(a)[0]));
        assert(int_dec_of(b)[0] == '-');
        assert(false);
    } else {
        lemma_dec_of_digits(b as nat);
        assert(int_dec_of(b)[0] == dec_of(b as nat)[0]);
        assert(is_digit_char(int_dec_of(b)[0]));
        assert(int_dec_of(a)[0] == '-');
        assert(false);
    }
}

/// The stored text round-trips losslessly: decimal strings hold no dot, so
/// the text splits at its single dot into the seconds and the nanoseconds,
/// and each half names one integer. Two moments with the same stored text
/// are the same moment.
pub proof fn lemma_timestamp_text_lossless(s1: int, n1: nat, s2: int, n2: nat)
    requires
        timestamp_text_of(s1, n1) == timestamp_text_of(s2, n2),
    ensures
        s1 == s2,
        n1 == n2,
{
    let a1 = int_dec_of(s1);
    let a2 = int_dec_of(s2);
    let b1 = dec_of(n1);
    let b2 = dec_of(n2);
    lemma_int_dec_of_no_dot(s1);
    lemma_int_dec_of_no_dot(s2);
    lemma_dec_of_digits(n1);
    lemma_dec_of_digits(n2);
    let t1 = timestamp_text_of(s1, n1);
    let t2 = timestamp_text_of(s2, n2);
    assert(t1 == a1 + seq!['.'] + b1);
    assert(t2 == a2 + seq!['.'] + b2);
    assert(t1.len() == a1.len() + 1 + b1.len());
    assert(t2.len() == a2.len() + 1 + b2.len());
    assert(a1.len() == a2.len()) by {
        if a1.len() < a2.len() {
            assert(t1[a1.len() as int] == '.');
            assert(t1[a1.len() as int] == a2[a1.len() as int]);
            assert(false);
        }
        if a2.len() < a1.len() {
            assert(t1[a2.len() as int] == '.');
            assert(t1[a2.len() as int] == a1[a2.len() as int]);
            assert(false);
        }
    }
    assert(a1 =~= a2) by {
        assert forall|i: int| 0 <= i < a1.len() implies a1[i] == a2[i] by {
            assert(t1[i] == a1[i]);
            assert(t1[i] == a2[i]);
        }
    }
    assert(b1 =~= b2) by {
        assert(b1.len() == b2.len());
        assert forall|i: int| 0 <= i < b1.len() implies b1[i] == b2[i] by {
            assert(t1[a1.len() + 1 + i] == b1[i]);
            assert(t1[a2.len() + 1 + i] == b2[i]);
        }
    }
    lemma_int_dec_of_injective(s1, s2);
    lemma_dec_of_injective(n1, n2);
}

/// Relies on time::OffsetDateTime::now_utc, unix_timestamp and nanosecond:
/// the current moment as whole seconds since the Unix epoch and nanoseconds
/// within the second, the latter below one billion.
#[verifier::external_body]
fn now_clock() -> (r: (i64, u32))
    ensures
        r.1 < 1_000_000_000,
{
    let now = time::OffsetDateTime::now_utc();
    (now.unix_timestamp(), now.nanosecond())
}

/// Renders a signed integer as its decimal string, with a leading `-` when
/// negative.
pub fn i64_to_decimal(n: i64) -> (r: String)
    ensures
        r@ == int_dec_of(n as int),
{
    if n >= 0 {
        u64_to_decimal(n as u64)
    } else {
        let wide: i128 = n as i128;
        let mag: u64 = (-wide) as u64;
        let mut s = String::new();
        proof {
            reveal_strlit("-");
        }
        s.append("-");
        let digits = u64_to_decimal(mag);
        s.append(digits.as_str());
        proof {
            assert(s@ =~= int_dec_of(n as int));
        }
        s
    }
}

/// Renders the moment (`secs`, `nanos`) as the text the store records.
pub fn timestamp_text(secs: i64, nanos: u32) -> (r: String)
    ensures
        r@ == timestamp_text_of(secs as int, nanos as nat),
{
    let mut s = i64_to_decimal(secs);
    proof {
        reveal_strlit(".");
    }
    s.append(".");
    let digits = u64_to_decimal(nanos as u64);
    s.append(digits.as_str());
    proof {
        assert(s@ =~= timestamp_text_of(secs as int, nanos as nat));
    }
    s
}

/// Reads the wall clock and renders the current moment as the text the store
/// records. Which moment the clock reports depends on when the call is made,
/// but the text is always some moment's encoding.
pub fn now_timestamp_text() -> (r: String)
    ensures
        exists|secs: int, nanos: nat|
            nanos < 1_000_000_000 && r@ == timestamp_text_of(secs, nanos),
{
    let (secs, nanos) = now_clock();
    let r = timestamp_text(secs, nanos);
    proof {
        assert(r@ == timestamp_text_of(secs as int, nanos as nat));
    }
    r
}

} // verus!
