//! Key pairs and their addresses, with hexadecimal rendering for the
//! command line.
use vstd::prelude::*;
use vstd::string::StringExecFns;
use crate::address::Address;
use crate::ecdsa::{generate_keypair, pubkey_of};
use crate::hashing::keccak256_bytes;
use crate::transaction::spec_address_of_pubkey;

verus! {

/// The lower-case hexadecimal digit of a value below sixteen.
pub open spec fn hex_digit(n: u8) -> char {
    if n == 0 {
        '0'
    } else if n == 1 {
        '1'
    } else if n == 2 {
        '2'
    } else if n == 3 {
        '3'
    } else if n == 4 {
        '4'
    } else if n == 5 {
        '5'
    } else if n == 6 {
        '6'
    } else if n == 7 {
        '7'
    } else if n == 8 {
        '8'
    } else if n == 9 {
        '9'
    } else if n == 10 {
        'a'
    } else if n == 11 {
        'b'
    } else if n == 12 {
        'c'
    } else if n == 13 {
        'd'
    } else if n == 14 {
        'e'
    } else {
        'f'
    }
}

/// The lower-case hexadecimal rendering of a byte sequence, two digits
/// per byte.
pub open spec fn hex_chars(s: Seq<u8>) -> Seq<char>
    decreases s.len(),
{
    if s.len() == 0 {
        Seq::<char>::empty()
    } else {
        hex_chars(s.drop_last()) + seq![
            hex_digit(s.last() / 16),
            hex_digit(s.last() % 16),
        ]
    }
}

/// Append one hexadecimal digit.
fn append_nibble(out: &mut String, n: u8)
    requires
        n < 16,
    ensures
        final(out)@ == old(out)@.push(hex_digit(n)),
{
    proof {
        reveal_strlit("0");
        reveal_strlit("1");
        reveal_strlit("2");
        reveal_strlit("3");
        reveal_strlit("4");
        reveal_strlit("5");
        reveal_strlit("6");
        reveal_strlit("7");
        reveal_strlit("8");
        reveal_strlit("9");
        reveal_strlit("a");
        reveal_strlit("b");
        reveal_strlit("c");
        reveal_strlit("d");
        reveal_strlit("e");
        reveal_strlit("f");
    }
    match n {
        0 => out.append("0"),
        1 => out.append("1"),
        2 => out.append("2"),
        3 => out.append("3"),
        4 => out.append("4"),
        5 => out.append("5"),
        6 => out.append("6"),
        7 => out.append("7"),
        8 => out.append("8"),
        9 => out.append("9"),
        10 => out.append("a"),
        11 => out.append("b"),
        12 => out.append("c"),
        13 => out.append("d"),
        14 => out.append("e"),
        _ => out.append("f"),
    }
    proof {
        assert(out@ =~= old(out)@.push(hex_digit(n)));
    }
}

/// The `0x`-prefixed lower-case hexadecimal rendering of a byte vector.
pub fn hex_string(bytes: &Vec<u8>) -> (r: String)
    ensures
        r@ == seq!['0', 'x'] + hex_chars(bytes@),
{
    let mut out = String::new();
    proof {
        reveal_strlit("0x");
    }
    out.append("0x");
    proof {
        assert(out@ =~= seq!['0', 'x']);
    }
    let mut i: usize = 0;
    while i < bytes.len()
        invariant
            i <= bytes@.len(),
            out@ =~= seq!['0', 'x'] + hex_chars(bytes@.subrange(0, i as int)),
        decreases bytes@.len() - i,
    {
        let b = bytes[i];
        append_nibble(&mut out, b / 16);
        append_nibble(&mut out, b % 16);
        proof {
            let pre = bytes@.subrange(0, i as int);
            let cur = bytes@.subrange(0, i as int + 1);
            assert(cur.drop_last() =~= pre);
            assert(cur.last() == bytes@[i as int]);
            assert(out@ =~= seq!['0', 'x'] + hex_chars(cur));
        }
        i = i + 1;
    }
    proof {
        assert(bytes@.subrange(0, bytes@.len() as int) =~= bytes@);
    }
    out
}

/// The ASCII byte of a lower-case hexadecimal digit.
pub open spec fn hex_digit_ascii(n: u8) -> u8 {
    if n < 10 {
        (48 + n) as u8
    } else {
        (87 + n) as u8
    }
}

/// The lower-case hexadecimal ASCII bytes of a byte sequence.
pub open spec fn hex_ascii(s: Seq<u8>) -> Seq<u8>
    decreases s.len(),
{
    if s.len() == 0 {
        Seq::<u8>::empty()
    } else {
        hex_ascii(s.drop_last()) + seq![
            hex_digit_ascii(s.last() / 16),
            hex_digit_ascii(s.last() % 16),
        ]
    }
}

/// The i-th hexadecimal digit of a byte sequence, high nibble first.
pub open spec fn nibble_at(s: Seq<u8>, i: int) -> u8
    recommends
        0 <= i < 2 * s.len(),
{
    if i % 2 == 0 {
        s[i / 2] / 16
    } else {
        s[i / 2] % 16
    }
}

/// The upper-case hexadecimal digit of a value below sixteen.
pub open spec fn upper_hex_digit(n: u8) -> char {
    if n == 10 {
        'A'
    } else if n == 11 {
        'B'
    } else if n == 12 {
        'C'
    } else if n == 13 {
        'D'
    } else if n == 14 {
        'E'
    } else if n == 15 {
        'F'
    } else {
        hex_digit(n)
    }
}

/// The mixed-case rendering of an address: each letter is upper case
/// exactly where the matching digit of the digest of the lower-case
/// hexadecimal form is eight or more.
pub open spec fn checksum_chars(addr: Seq<u8>) -> Seq<char> {
    let h = crate::hashing::keccak_of(hex_ascii(addr));
    Seq::new(
        2 * addr.len(),
        |i: int|
            if nibble_at(addr, i) >= 10 && nibble_at(h, i) >= 8 {
                upper_hex_digit(nibble_at(addr, i))
            } else {
                hex_digit(nibble_at(addr, i))
            },
    )
}

/// The lower-case hexadecimal ASCII rendering of a byte vector.
fn hex_ascii_bytes(bytes: &Vec<u8>) -> (r: Vec<u8>)
    ensures
        r@ == hex_ascii(bytes@),
{
    let mut out: Vec<u8> = Vec::new();
    let mut i: usize = 0;
    while i < bytes.len()
        invariant
            i <= bytes@.len(),
            out@ =~= hex_ascii(bytes@.subrange(0, i as int)),
        decreases bytes@.len() - i,
    {
        let b = bytes[i];
        let hi = b / 16;
        let lo = b % 16;
        out.push(if hi < 10 { 48 + hi } else { 87 + hi });
        out.push(if lo < 10 { 48 + lo } else { 87 + lo });
        proof {
            let pre = bytes@.subrange(0, i as int);
            let cur = bytes@.subrange(0, i as int + 1);
            assert(cur.drop_last() =~= pre);
            assert(out@ =~= hex_ascii(cur));
        }
        i = i + 1;
    }
    proof {
        assert(bytes@.subrange(0, bytes@.len() as int) =~= bytes@);
    }
    out
}

/// Append one hexadecimal digit, upper case when asked and it is a
/// letter.
fn append_hex_char(out: &mut String, n: u8, upper: bool)
    requires
        n < 16,
    ensures
        final(out)@ == old(out)@.push(
            if upper && n >= 10 {
                upper_hex_digit(n)
            } else {
                hex_digit(n)
            },
        ),
{
    if upper && n >= 10 {
        proof {
            reveal_strlit("A");
            reveal_strlit("B");
            reveal_strlit("C");
            reveal_strlit("D");
            reveal_strlit("E");
            reveal_strlit("F");
        }
        match n {
            10 => out.append("A"),
            11 => out.append("B"),
            12 => out.append("C"),
            13 => out.append("D"),
            14 => out.append("E"),
            _ => out.append("F"),
        }
        proof {
            assert(out@ =~= old(out)@.push(upper_hex_digit(n)));
        }
    } else {
        append_nibble(out, n);
    }
}

/// The `0x`-prefixed mixed-case rendering of a 20-byte address.
pub fn checksum_string(bytes: &Vec<u8>) -> (r: String)
    requires
        bytes@.len() == 20,
    ensures
        r@ == seq!['0', 'x'] + checksum_chars(bytes@),
{
    let ascii = hex_ascii_bytes(bytes);
    let digest = keccak256_bytes(ascii.as_slice());
    let mut out = String::new();
    proof {
        reveal_strlit("0x");
    }
    out.append("0x");
    proof {
        assert(out@ =~= seq!['0', 'x']);
    }
    let mut i: usize = 0;
    while i < 40
        invariant
            bytes@.len() == 20,
            digest@ == crate::hashing::keccak_of(hex_ascii(bytes@)),
            digest@.len() == 32,
            i <= 40,
            out@ =~= seq!['0', 'x'] + checksum_chars(bytes@).subrange(0, i as int),
        decreases 40 - i,
    {
        let byte = bytes[i / 2];
        let d = if i % 2 == 0 {
            byte / 16
        } else {
            byte % 16
        };
        let hash_byte = digest[i / 2];
        let hash_nibble = if i % 2 == 0 {
            hash_byte / 16
        } else {
            hash_byte % 16
        };
        append_hex_char(&mut out, d, hash_nibble >= 8);
        proof {
            assert(d == nibble_at(bytes@, i as int));
            assert(hash_nibble == nibble_at(digest@, i as int));
            assert(out@ =~= seq!['0', 'x'] + checksum_chars(bytes@).subrange(0, i as int + 1));
        }
        i = i + 1;
    }
    proof {
        assert(checksum_chars(bytes@).subrange(0, 40) =~= checksum_chars(bytes@));
    }
    out
}

/// The address belonging to an uncompressed public key: the last 20
/// bytes of the digest of the key without its leading format byte.
fn to_address(verifying_key: &Vec<u8>) -> (r: Address)
    requires
        verifying_key@.len() >= 1,
    ensures
        r@ == spec_address_of_pubkey(verifying_key@),
        r@.len() == 20,
{
    let mut tail: Vec<u8> = Vec::new();
    let mut i: usize = 1;
    while i < verifying_key.len()
        invariant
            verifying_key@.len() >= 1,
            1 <= i <= verifying_key@.len(),
            tail@ =~= verifying_key@.subrange(1, i as int),
        decreases verifying_key@.len() - i,
    {
        tail.push(verifying_key[i]);
        i = i + 1;
    }
    proof {
        assert(tail@ =~= verifying_key@.skip(1));
    }
    let hash = keccak256_bytes(tail.as_slice());
    let mut addr_bytes: Vec<u8> = Vec::new();
    let mut j: usize = 12;
    while j < hash.len()
        invariant
            hash@.len() == 32,
            12 <= j <= 32,
            addr_bytes@ =~= hash@.subrange(12, j as int),
        decreases hash@.len() - j,
    {
        addr_bytes.push(hash[j]);
        j = j + 1;
    }
    proof {
        assert(addr_bytes@ =~= hash@.skip(12));
    }
    Address::from_bytes(addr_bytes)
}

/// A key pair with its derived address.
#[derive(Debug)]
pub struct Wallet {
    pub private_key: Vec<u8>,
    pub public_key: Vec<u8>,
    pub address: Address,
}

impl Wallet {
    /// A wallet from a 32-byte secret key and its 65-byte uncompressed
    /// public key; the address is derived from the public key.
    pub fn new(signing_key: Vec<u8>, verifying_key: Vec<u8>) -> (r: Wallet)
        requires
            verifying_key@.len() == 65,
        ensures
            r.private_key@ == signing_key@,
            r.public_key@ == verifying_key@,
            r.address@ == spec_address_of_pubkey(verifying_key@),
            r.address.well_formed(),
    {
        let address = to_address(&verifying_key);
        Wallet { private_key: signing_key, public_key: verifying_key, address }
    }

    /// A freshly generated wallet; the public key always belongs to the
    /// secret key, and the address to the public key.
    pub fn generate() -> (r: Wallet)
        ensures
            r.private_key@.len() == 32,
            r.public_key@ == pubkey_of(r.private_key@),
            r.public_key@.len() == 65,
            r.address@ == spec_address_of_pubkey(r.public_key@),
            r.address.well_formed(),
    {
        let (signing_key, verifying_key) = generate_keypair();
        Wallet::new(signing_key, verifying_key)
    }

    /// The secret key in `0x`-prefixed hexadecimal.
    pub fn get_private_key(&self) -> (r: String)
        ensures
            r@ == seq!['0', 'x'] + hex_chars(self.private_key@),
    {
        hex_string(&self.private_key)
    }

    /// The public key in `0x`-prefixed hexadecimal.
    pub fn get_public_key(&self) -> (r: String)
        ensures
            r@ == seq!['0', 'x'] + hex_chars(self.public_key@),
    {
        hex_string(&self.public_key)
    }

    /// The address in `0x`-prefixed mixed-case hexadecimal, letters
    /// upper case where the checksum convention asks.
    pub fn get_address(&self) -> (r: String)
        requires
            self.address.well_formed(),
        ensures
            r@ == seq!['0', 'x'] + checksum_chars(self.address.bytes@),
    {
        checksum_string(&self.address.bytes)
    }
}

} // verus!
