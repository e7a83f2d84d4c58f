//! Fee-market transactions: a recipient, a value, gas bounds, a payload,
//! and a recoverable signature over the transaction's canonical digest.
//! The sender address is never stored; it is recovered from the
//! signature on demand.
use vstd::prelude::*;
use crate::address::Address;
use crate::bytes::clone_bytes;
use crate::ecdsa::{
    sig_of, sign_ok, recover_of, ecdsa_verify_ok, ecdsa_sign, ecdsa_recover, ecdsa_verify,
};
use crate::hashing::{keccak_of, keccak256_bytes};
use crate::u256::{u64_be_bytes, push_be_u64};

verus! {

/// The flat gas charged for any transaction.
pub const TRANSACTION_GAS_COST: u64 = 21000;

/// Wei per gigawei.
pub const GWEI_TO_WEI: u64 = 1_000_000_000;

/// Wei per whole coin.
pub const ETH_TO_WEI: u64 = 1_000_000_000 * 1_000_000_000;

/// Why the executor refused a transaction.
#[derive(Clone, Copy, Debug, PartialEq, Eq, Structural)]
pub enum TransactionError {
    SenderAccountDoesNotExist,
    InvalidTransaction,
    InvalidSignature,
    InsufficientBalance,
    InsufficientGas,
    MaximumGasFeeBelowBaseFee,
}

/// A fee-market transaction. An all-zero recipient marks a contract
/// creation, and `input_data` then carries the init code.
#[derive(Debug)]
pub struct Transaction {
    pub chain_id: u64,
    pub nonce: u64,
    pub max_priority_fee_per_gas: u64,
    pub max_fee_per_gas: u64,
    pub gas_limit: u64,
    pub to: Address,
    pub value: u64,
    pub input_data: Vec<u8>,
    pub signature_parity: bool,
    pub signature: Vec<u8>,
}

/// The bytes the signing digest hashes: the fee-market type byte, the
/// numeric fields big-endian, the recipient padded to a 32-byte word,
/// and the value.
pub open spec fn spec_signing_payload(tx: &Transaction) -> Seq<u8> {
    seq![2u8] + u64_be_bytes(tx.chain_id) + u64_be_bytes(tx.nonce) + u64_be_bytes(
        tx.max_priority_fee_per_gas,
    ) + u64_be_bytes(tx.max_fee_per_gas) + u64_be_bytes(tx.gas_limit) + Seq::new(
        12,
        |i: int| 0u8,
    ) + tx.to@ + u64_be_bytes(tx.value)
}

/// The canonical digest a transaction is signed over.
pub open spec fn spec_signing_digest(tx: &Transaction) -> Seq<u8> {
    keccak_of(spec_signing_payload(tx))
}

/// Whether a transaction's signature recovers a key and verifies under
/// it.
pub open spec fn spec_verify_signature(tx: &Transaction) -> bool {
    match recover_of(spec_signing_digest(tx), tx.signature@, tx.signature_parity) {
        Some(pk) => ecdsa_verify_ok(pk, spec_signing_digest(tx), tx.signature@),
        None => false,
    }
}

/// The address belonging to an uncompressed public key: the last 20
/// bytes of the digest of the key without its leading format byte.
pub open spec fn spec_address_of_pubkey(pk: Seq<u8>) -> Seq<u8> {
    keccak_of(pk.skip(1)).skip(12)
}

/// The sender a transaction's signature recovers, if any.
pub open spec fn spec_sender(tx: &Transaction) -> Option<Seq<u8>> {
    match recover_of(spec_signing_digest(tx), tx.signature@, tx.signature_parity) {
        Some(pk) => Some(spec_address_of_pubkey(pk)),
        None => None,
    }
}

/// Whether a transaction carries exactly the signature the given key
/// produces over its digest.
pub open spec fn spec_signed_with(tx: &Transaction, key: Seq<u8>) -> bool {
    (tx.signature@, tx.signature_parity) == sig_of(key, spec_signing_digest(tx))
}

impl Transaction {
    /// Whether the recipient holds 20 bytes.
    pub open spec fn well_formed(&self) -> bool {
        self.to.well_formed()
    }

    /// A transaction with the given fields at chain zero and nonce zero,
    /// signed with the key where one is given and signing succeeds;
    /// otherwise its signature stays all zeros.
    pub fn new(
        to: Address,
        value: u64,
        gas_limit: u64,
        max_priority_fee_per_gas: u64,
        max_fee_per_gas: u64,
        input_data: Vec<u8>,
        private_key: Option<&Vec<u8>>,
    ) -> (r: Transaction)
        requires
            to.well_formed(),
        ensures
            r.chain_id == 0,
            r.nonce == 0,
            r.max_priority_fee_per_gas == max_priority_fee_per_gas,
            r.max_fee_per_gas == max_fee_per_gas,
            r.gas_limit == gas_limit,
            r.to@ == to@,
            r.value == value,
            r.input_data@ == input_data@,
            r.well_formed(),
            match private_key {
                Some(k) => if sign_ok(k@, spec_signing_digest(&r)) {
                    spec_signed_with(&r, k@) && spec_verify_signature(&r) && spec_sender(&r)
                        == Some(spec_address_of_pubkey(crate::ecdsa::pubkey_of(k@)))
                } else {
                    r.signature@ == Seq::new(64, |i: int| 0u8) && !r.signature_parity
                },
                None => r.signature@ == Seq::new(64, |i: int| 0u8) && !r.signature_parity,
            },
    {
        let mut tx = Transaction {
            chain_id: 0,
            nonce: 0,
            max_priority_fee_per_gas,
            max_fee_per_gas,
            gas_limit,
            to,
            value,
            input_data,
            signature_parity: false,
            signature: crate::bytes::zero_bytes(64),
        };
        if let Some(key) = private_key {
            let outcome = tx.sign(key);
            proof {
                if outcome is Err {
                    assert(tx.signature@ =~= Seq::new(64, |i: int| 0u8));
                }
            }
        }
        tx
    }

    /// The canonical digest of this transaction.
    pub fn hash_for_signing(&self) -> (r: Vec<u8>)
        requires
            self.well_formed(),
        ensures
            r@ == spec_signing_digest(self),
            r@.len() == 32,
    {
        let mut payload: Vec<u8> = Vec::new();
        payload.push(0x02);
        push_be_u64(&mut payload, self.chain_id);
        push_be_u64(&mut payload, self.nonce);
        push_be_u64(&mut payload, self.max_priority_fee_per_gas);
        push_be_u64(&mut payload, self.max_fee_per_gas);
        push_be_u64(&mut payload, self.gas_limit);
        let mut i: usize = 0;
        let ghost prefix = payload@;
        while i < 12
            invariant
                i <= 12,
                payload@ =~= prefix + Seq::new(i as nat, |j: int| 0u8),
            decreases 12 - i,
        {
            payload.push(0);
            proof {
                assert(payload@ =~= prefix + Seq::new(i as nat + 1, |j: int| 0u8));
            }
            i = i + 1;
        }
        let mut k: usize = 0;
        let ghost prefix2 = payload@;
        while k < self.to.bytes.len()
            invariant
                self.to.bytes@.len() == 20,
                k <= 20,
                payload@ =~= prefix2 + self.to.bytes@.subrange(0, k as int),
            decreases self.to.bytes@.len() - k,
        {
            payload.push(self.to.bytes[k]);
            k = k + 1;
        }
        push_be_u64(&mut payload, self.value);
        proof {
            assert(payload@ =~= spec_signing_payload(self));
        }
        keccak256_bytes(payload.as_slice())
    }

    /// Sign this transaction with the given 32-byte secret key. Signing
    /// succeeds exactly when the key and digest admit it; after a
    /// successful signing the signature verifies, and the sender the
    /// signature recovers is exactly the address of the key's public
    /// half.
    pub fn sign(&mut self, private_key: &Vec<u8>) -> (r: Result<(), TransactionError>)
        requires
            old(self).well_formed(),
        ensures
            final(self).chain_id == old(self).chain_id,
            final(self).nonce == old(self).nonce,
            final(self).max_priority_fee_per_gas == old(self).max_priority_fee_per_gas,
            final(self).max_fee_per_gas == old(self).max_fee_per_gas,
            final(self).gas_limit == old(self).gas_limit,
            final(self).to == old(self).to,
            final(self).value == old(self).value,
            final(self).input_data == old(self).input_data,
            final(self).well_formed(),
            (r is Ok) == sign_ok(private_key@, spec_signing_digest(old(self))),
            match r {
                Ok(()) => {
                    &&& spec_signed_with(final(self), private_key@)
                    &&& spec_verify_signature(final(self))
                    &&& spec_sender(final(self)) == Some(
                        spec_address_of_pubkey(crate::ecdsa::pubkey_of(private_key@)),
                    )
                },
                Err(e) => e == TransactionError::InvalidTransaction && final(self).signature
                    == old(self).signature && final(self).signature_parity == old(
                    self,
                ).signature_parity,
            },
    {
        let digest = self.hash_for_signing();
        match ecdsa_sign(private_key, &digest) {
            Some((sig, parity)) => {
                self.signature = sig;
                self.signature_parity = parity;
                proof {
                    assert(spec_signing_digest(self) == digest@);
                }
                Ok(())
            },
            None => Err(TransactionError::InvalidTransaction),
        }
    }

    /// Recover the uncompressed public key this transaction's signature
    /// points at, if recovery succeeds.
    fn recover_verifying_key(&self) -> (r: Option<Vec<u8>>)
        requires
            self.well_formed(),
        ensures
            match (r, recover_of(
                spec_signing_digest(self),
                self.signature@,
                self.signature_parity,
            )) {
                (Some(v), Some(s)) => v@ == s && v@.len() == 65,
                (None, None) => true,
                _ => false,
            },
    {
        let digest = self.hash_for_signing();
        ecdsa_recover(&digest, &self.signature, self.signature_parity)
    }

    /// Whether the signature recovers a key and verifies under it.
    pub fn verify_signature(&self) -> (r: bool)
        requires
            self.well_formed(),
        ensures
            r == spec_verify_signature(self),
    {
        let digest = self.hash_for_signing();
        match self.recover_verifying_key() {
            Some(verifying_key) => ecdsa_verify(&verifying_key, &digest, &self.signature),
            None => false,
        }
    }

    /// The sender address the signature recovers: the last 20 bytes of
    /// the digest of the recovered public key without its format byte.
    pub fn get_sender_address(&self) -> (r: Option<Address>)
        requires
            self.well_formed(),
        ensures
            match (r, spec_sender(self)) {
                (Some(a), Some(s)) => a@ == s && a.well_formed(),
                (None, None) => true,
                _ => false,
            },
    {
        let public_key_bytes = match self.recover_verifying_key() {
            Some(v) => v,
            None => {
                return None;
            },
        };
        let mut tail: Vec<u8> = Vec::new();
        let mut i: usize = 1;
        while i < public_key_bytes.len()
            invariant
                public_key_bytes@.len() == 65,
                1 <= i <= 65,
                tail@ =~= public_key_bytes@.subrange(1, i as int),
            decreases public_key_bytes@.len() - i,
        {
            tail.push(public_key_bytes[i]);
            i = i + 1;
        }
        proof {
            assert(tail@ =~= public_key_bytes@.skip(1));
        }
        let hash = keccak256_bytes(tail.as_slice());
        let mut addr_bytes: Vec<u8> = Vec::new();
        let mut j: usize = 12;
        while j < hash.len()
            invariant
                hash@.len() == 32,
                12 <= j <= 32,
                addr_bytes@ =~= hash@.subrange(12, j as int),
            decreases hash@.len() - j,
        {
            addr_bytes.push(hash[j]);
            j = j + 1;
        }
        proof {
            assert(addr_bytes@ =~= hash@.skip(12));
        }
        Some(Address::from_bytes(addr_bytes))
    }

    /// A fresh transaction with the same fields.
    pub fn duplicate(&self) -> (r: Transaction)
        ensures
            r.chain_id == self.chain_id,
            r.nonce == self.nonce,
            r.max_priority_fee_per_gas == self.max_priority_fee_per_gas,
            r.max_fee_per_gas == self.max_fee_per_gas,
            r.gas_limit == self.gas_limit,
            r.to@ == self.to@,
            r.value == self.value,
            r.input_data@ == self.input_data@,
            r.signature_parity == self.signature_parity,
            r.signature@ == self.signature@,
    {
        Transaction {
            chain_id: self.chain_id,
            nonce: self.nonce,
            max_priority_fee_per_gas: self.max_priority_fee_per_gas,
            max_fee_per_gas: self.max_fee_per_gas,
            gas_limit: self.gas_limit,
            to: self.to.duplicate(),
            value: self.value,
            input_data: clone_bytes(&self.input_data),
            signature_parity: self.signature_parity,
            signature: clone_bytes(&self.signature),
        }
    }
}

} // verus!
