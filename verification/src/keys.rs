//! The persisted-state key layout owned by the core.
//!
//! One entry holds the current client state under a fixed key; one entry
//! per trusted height holds that height's consensus state, under a
//! deterministic decimal encoding of the height.
use vstd::prelude::*;
use crate::height::Height;

verus! {

/// The decimal digits of `n`, most significant first, as ASCII bytes.
pub open spec fn dec_digits(n: u64) -> Seq<u8>
    decreases n,
{
    if n < 10 {
        seq![(48 + n) as u8]
    } else {
        dec_digits(n / 10) + seq![(48 + (n % 10)) as u8]
    }
}

/// The fixed key of the current client state: the bytes of "clientState".
pub open spec fn client_state_key_spec() -> Seq<u8> {
    seq![99u8, 108u8, 105u8, 101u8, 110u8, 116u8, 83u8, 116u8, 97u8, 116u8, 101u8]
}

/// The key prefix of consensus-state entries: the bytes of
/// "consensusStates/".
pub open spec fn consensus_key_prefix_spec() -> Seq<u8> {
    seq![
        99u8,
        111u8,
        110u8,
        115u8,
        101u8,
        110u8,
        115u8,
        117u8,
        115u8,
        83u8,
        116u8,
        97u8,
        116u8,
        101u8,
        115u8,
        47u8,
    ]
}

/// The key of the consensus state at a height: the prefix, the revision
/// number in decimal, a dash, and the revision height in decimal.
pub open spec fn consensus_key_spec(h: Height) -> Seq<u8> {
    consensus_key_prefix_spec() + dec_digits(h.revision_number) + seq![45u8] + dec_digits(
        h.revision_height,
    )
}

/// Appends the decimal digits of `n` to `out`.
pub fn push_decimal(out: &mut Vec<u8>, n: u64)
    ensures
        final(out)@ == old(out)@ + dec_digits(n),
    decreases n,
{
    if n < 10 {
        out.push(48 + (n as u8));
        proof {
            assert(final(out)@ =~= old(out)@ + dec_digits(n));
        }
    } else {
        proof {
            vstd::arithmetic::div_mod::lemma_div_is_strictly_smaller(n as int, 10);
        }
        push_decimal(out, n / 10);
        out.push(48 + ((n % 10) as u8));
        proof {
            assert(final(out)@ =~= old(out)@ + dec_digits(n));
        }
    }
}

/// The fixed key under which the host stores the current client state.
pub fn host_client_state_key() -> (r: Vec<u8>)
    ensures
        r@ == client_state_key_spec(),
{
    let mut r: Vec<u8> = Vec::new();
    r.push(99u8);
    r.push(108u8);
    r.push(105u8);
    r.push(101u8);
    r.push(110u8);
    r.push(116u8);
    r.push(83u8);
    r.push(116u8);
    r.push(97u8);
    r.push(116u8);
    r.push(101u8);
    proof {
        assert(r@ =~= client_state_key_spec());
    }
    r
}

/// The key under which the host stores the consensus state at `h`.
pub fn consensus_db_key(h: &Height) -> (r: Vec<u8>)
    ensures
        r@ == consensus_key_spec(*h),
{
    let mut r: Vec<u8> = Vec::new();
    r.push(99u8);
    r.push(111u8);
    r.push(110u8);
    r.push(115u8);
    r.push(101u8);
    r.push(110u8);
    r.push(115u8);
    r.push(117u8);
    r.push(115u8);
    r.push(83u8);
    r.push(116u8);
    r.push(97u8);
    r.push(116u8);
    r.push(101u8);
    r.push(115u8);
    r.push(47u8);
    proof {
        assert(r@ =~= consensus_key_prefix_spec());
    }
    push_decimal(&mut r, h.revision_number);
    r.push(45u8);
    push_decimal(&mut r, h.revision_height);
    proof {
        assert(r@ =~= consensus_key_spec(*h));
    }
    r
}

} // verus!
