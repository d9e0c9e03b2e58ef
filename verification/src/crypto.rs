//! At-rest obfuscation of the credential store.
//!
//! A 32-byte key is derived from a process-specific seed by an FNV-style
//! fold, and stored bytes are XOR-combined with that key. This is a
//! placeholder for authenticated encryption, not a security boundary; its
//! value here is that the byte-level round trip is proved.

use vstd::prelude::*;
use vstd::string::*;

verus! {

/// Key used when no process-specific key has been configured.
pub const ENCRYPTION_KEY_FALLBACK: &'static str = "galynx-desktop-store-v1";

/// Offset basis of the seed fold.
pub const KEY_FOLD_BASIS: u64 = 1469598103934665603;

/// Multiplier of the seed fold.
pub const KEY_FOLD_PRIME: u64 = 1099511628211;

/// Length in bytes of a derived key.
pub const KEY_LEN: usize = 32;

/// Fold the seed bytes into the running hash.
pub open spec fn seed_fold(h: u64, bytes: Seq<u8>) -> u64
    decreases bytes.len(),
{
    if bytes.len() == 0 {
        h
    } else {
        seed_fold(
            ((h ^ (bytes[0] as u64)) as u64).wrapping_mul(KEY_FOLD_PRIME),
            bytes.subrange(1, bytes.len() as int),
        )
    }
}

/// One mixing step for the key byte at `idx`.
pub open spec fn key_mix(h: u64, idx: int) -> u64 {
    ((h ^ ((((idx as u64) << 8) | 0x9e37) as u64)) as u64).wrapping_mul(KEY_FOLD_PRIME)
}

/// The hash state after producing the key byte at `idx`.
pub open spec fn key_state(h0: u64, idx: int) -> u64
    decreases idx,
{
    if idx <= 0 {
        key_mix(h0, 0)
    } else {
        key_mix(key_state(h0, idx - 1), idx)
    }
}

/// The 32-byte key derived from the given seed bytes.
pub open spec fn derived_key(bytes: Seq<u8>) -> Seq<u8> {
    Seq::new(KEY_LEN as nat, |i: int| (key_state(seed_fold(KEY_FOLD_BASIS, bytes), i) & 0xff) as u8)
}

/// Derive the 32-byte store key from a seed string.
pub fn derive_encryption_key(seed: &str) -> (r: Vec<u8>)
    ensures
        r@ == derived_key(seed.spec_bytes()),
        r@.len() == KEY_LEN,
{
    let bytes = seed.as_bytes();
    let ghost all = seed.spec_bytes();
    let mut h: u64 = KEY_FOLD_BASIS;
    let mut i: usize = 0;
    proof {
        assert(all.subrange(0, all.len() as int) =~= all);
    }
    while i < bytes.len()
        invariant
            0 <= i <= bytes@.len(),
            bytes@ == all,
            seed_fold(h, all.subrange(i as int, all.len() as int)) == seed_fold(
                KEY_FOLD_BASIS,
                all,
            ),
        decreases bytes@.len() - i,
    {
        let ghost pre = all.subrange(i as int, all.len() as int);
        h = (h ^ (bytes[i] as u64)).wrapping_mul(KEY_FOLD_PRIME);
        i += 1;
        proof {
            assert(pre.subrange(1, pre.len() as int) =~= all.subrange(
                i as int,
                all.len() as int,
            ));
        }
    }
    let ghost h0 = h;

    let mut key: Vec<u8> = Vec::new();
    let mut idx: usize = 0;
    while idx < KEY_LEN
        invariant
            0 <= idx <= KEY_LEN,
            key@.len() == idx,
            h0 == seed_fold(KEY_FOLD_BASIS, all),
            forall|j: int| 0 <= j < idx ==> key@[j] == (key_state(h0, j) & 0xff) as u8,
            h == if idx == 0 {
                h0
            } else {
                key_state(h0, idx - 1)
            },
        decreases KEY_LEN - idx,
    {
        h = (h ^ (((idx as u64) << 8) | 0x9e37)).wrapping_mul(KEY_FOLD_PRIME);
        proof {
            assert(h & 0xff <= 0xff) by (bit_vector);
        }
        key.push((h & 0xff) as u8);
        idx += 1;
    }
    proof {
        assert(key@ =~= derived_key(all));
    }
    key
}

/// The key in effect: the configured one where present, the compiled-in
/// fallback otherwise.
pub fn active_encryption_key(configured: Option<&Vec<u8>>) -> (r: Vec<u8>)
    ensures
        match configured {
            Some(k) => r@ == k@,
            None => r@ == ENCRYPTION_KEY_FALLBACK.spec_bytes(),
        },
{
    match configured {
        Some(k) => vstd::slice::slice_to_vec(k.as_slice()),
        None => ENCRYPTION_KEY_FALLBACK.as_bytes_vec(),
    }
}

/// Each byte XOR-combined with the key byte at its index, the key repeating.
pub open spec fn xor_spec(key: Seq<u8>, input: Seq<u8>) -> Seq<u8> {
    Seq::new(input.len(), |i: int| input[i] ^ key[i % (key.len() as int)])
}

/// XOR-combine the input with the repeating key. Applying it twice with the
/// same key restores the input.
pub fn xor_crypt(key: &[u8], input: &[u8]) -> (r: Vec<u8>)
    requires
        key@.len() > 0,
    ensures
        r@ == xor_spec(key@, input@),
{
    let mut out: Vec<u8> = Vec::new();
    let mut i: usize = 0;
    while i < input.len()
        invariant
            0 <= i <= input@.len(),
            key@.len() > 0,
            out@.len() == i,
            forall|j: int| 0 <= j < i ==> out@[j] == input@[j] ^ key@[j % (key@.len() as int)],
        decreases input@.len() - i,
    {
        out.push(input[i] ^ key[i % key.len()]);
        i += 1;
    }
    proof {
        assert(out@ =~= xor_spec(key@, input@));
    }
    out
}

/// The XOR obfuscation is an involution: encrypting twice with one key gives
/// the input back.
pub proof fn lemma_xor_crypt_roundtrip(key: Seq<u8>, input: Seq<u8>)
    requires
        key.len() > 0,
    ensures
        xor_spec(key, xor_spec(key, input)) == input,
{
    assert forall|a: u8, b: u8| ((a ^ b) ^ b) == a by {
        assert(((a ^ b) ^ b) == a) by (bit_vector);
    }
    assert(xor_spec(key, xor_spec(key, input)) =~= input);
}

} // verus!
