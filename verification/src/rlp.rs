//! The recursive-length-prefix encoding of a sender address paired with
//! a nonce: what the derivation of a contract address hashes. A 20-byte
//! string takes a one-byte header, an integer is its trimmed big-endian
//! bytes (a small one stands alone, zero is the empty string), and the
//! pair is a list with a one-byte header.
use vstd::prelude::*;
use crate::evm::AddressNonce;

verus! {

/// The minimal big-endian bytes of an integer; zero has none.
pub open spec fn be_trimmed(n: u64) -> Seq<u8>
    decreases n,
{
    if n == 0 {
        Seq::<u8>::empty()
    } else {
        be_trimmed(n / 256).push((n % 256) as u8)
    }
}

/// The encoding of a 64-bit integer: the empty string for zero, the byte
/// itself below 0x80, else a header carrying the byte count.
pub open spec fn rlp_u64(n: u64) -> Seq<u8> {
    if n == 0 {
        seq![0x80u8]
    } else if n < 0x80 {
        seq![n as u8]
    } else {
        seq![(0x80 + be_trimmed(n).len()) as u8] + be_trimmed(n)
    }
}

/// The encoding of the pair of a 20-byte address and a nonce: a list
/// whose payload is the address as a string and the nonce as an integer.
pub open spec fn rlp_address_nonce(addr: Seq<u8>, nonce: u64) -> Seq<u8>
    recommends
        addr.len() == 20,
{
    let payload = seq![0x94u8] + addr + rlp_u64(nonce);
    seq![(0xc0 + payload.len()) as u8] + payload
}

/// An integer below 256^k has at most k trimmed bytes.
proof fn lemma_be_trimmed_small(n: u64, k: nat)
    requires
        n < crate::u256::pow256(k),
    ensures
        be_trimmed(n).len() <= k,
    decreases n,
{
    if n > 0 {
        assert(crate::u256::pow256(0) == 1);
        assert(k > 0);
        assert(n / 256 < crate::u256::pow256((k - 1) as nat)) by (nonlinear_arith)
            requires
                n < crate::u256::pow256(k),
                k > 0,
                crate::u256::pow256(k) == 256 * crate::u256::pow256((k - 1) as nat),
        ;
        lemma_be_trimmed_small(n / 256, (k - 1) as nat);
    }
}

/// Append the minimal big-endian bytes of `n` to a buffer.
fn push_be_trimmed(out: &mut Vec<u8>, n: u64)
    ensures
        final(out)@ == old(out)@ + be_trimmed(n),
    decreases n,
{
    if n == 0 {
        proof {
            assert(old(out)@ + be_trimmed(n) =~= old(out)@);
        }
        return ;
    }
    push_be_trimmed(out, n / 256);
    out.push((n % 256) as u8);
    proof {
        assert(old(out)@ + be_trimmed(n) =~= (old(out)@ + be_trimmed(n / 256)).push(
            (n % 256) as u8,
        ));
    }
}

/// The encoded address-nonce pair, as the contract-address derivation
/// hashes it.
pub fn encode_address_nonce(pair: &AddressNonce) -> (r: Vec<u8>)
    requires
        pair.address@.len() == 20,
    ensures
        r@ == rlp_address_nonce(pair.address@, pair.nonce),
{
    let addr = &pair.address;
    let nonce = pair.nonce;
    proof {
        crate::u256::lemma_pow256_values();
        lemma_be_trimmed_small(nonce, 8);
    }
    let mut body: Vec<u8> = Vec::new();
    body.push(0x94);
    let mut i: usize = 0;
    while i < addr.len()
        invariant
            addr@.len() == 20,
            i <= 20,
            body@ =~= seq![0x94u8] + addr@.subrange(0, i as int),
        decreases addr@.len() - i,
    {
        body.push(addr[i]);
        i = i + 1;
    }
    proof {
        assert(body@ =~= seq![0x94u8] + addr@);
    }
    if nonce == 0 {
        body.push(0x80);
        proof {
            assert(body@ =~= seq![0x94u8] + addr@ + rlp_u64(nonce));
        }
    } else if nonce < 0x80 {
        body.push(nonce as u8);
        proof {
            assert(body@ =~= seq![0x94u8] + addr@ + rlp_u64(nonce));
        }
    } else {
        let ghost before = body@;
        let mut trimmed: Vec<u8> = Vec::new();
        push_be_trimmed(&mut trimmed, nonce);
        proof {
            assert(trimmed@ =~= be_trimmed(nonce));
        }
        body.push(0x80 + trimmed.len() as u8);
        let mut j: usize = 0;
        while j < trimmed.len()
            invariant
                trimmed@ == be_trimmed(nonce),
                trimmed@.len() <= 8,
                j <= trimmed@.len(),
                body@ =~= before + seq![(0x80 + trimmed@.len()) as u8] + trimmed@.subrange(
                    0,
                    j as int,
                ),
            decreases trimmed@.len() - j,
        {
            body.push(trimmed[j]);
            j = j + 1;
        }
        proof {
            assert(body@ =~= seq![0x94u8] + addr@ + rlp_u64(nonce));
        }
    }
    let mut r: Vec<u8> = Vec::new();
    r.push(0xc0 + body.len() as u8);
    let mut k: usize = 0;
    while k < body.len()
        invariant
            body@.len() <= 30,
            body@ == seq![0x94u8] + addr@ + rlp_u64(nonce),
            k <= body@.len(),
            r@ =~= seq![(0xc0 + body@.len()) as u8] + body@.subrange(0, k as int),
        decreases body@.len() - k,
    {
        r.push(body[k]);
        k = k + 1;
    }
    proof {
        assert(r@ =~= rlp_address_nonce(addr@, nonce));
    }
    r
}

} // verus!
