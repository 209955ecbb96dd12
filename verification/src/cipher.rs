//! The byte-shift cipher: every byte is shifted by a one-byte key, modulo 256.
//! A key of zero would leave the data unchanged, so it is replaced by 128.

use vstd::prelude::*;

verus! {

/// The shift that a key stands for: the key itself, or 128 where the key is zero.
pub open spec fn effective_key(key: u8) -> u8 {
    if key == 0 {
        128
    } else {
        key
    }
}

/// `b + k` modulo 256.
pub open spec fn shift_up(b: u8, k: u8) -> u8 {
    if b + k < 256 {
        (b + k) as u8
    } else {
        (b + k - 256) as u8
    }
}

/// `b - k` modulo 256.
pub open spec fn shift_down(b: u8, k: u8) -> u8 {
    if b >= k {
        (b - k) as u8
    } else {
        (b - k + 256) as u8
    }
}

/// What `encrypt` returns: each byte shifted up by the effective key.
pub open spec fn encrypt_spec(data: Seq<u8>, key: u8) -> Seq<u8> {
    Seq::new(data.len(), |i: int| shift_up(data[i], effective_key(key)))
}

/// What `decrypt` returns: each byte shifted down by the effective key.
pub open spec fn decrypt_spec(data: Seq<u8>, key: u8) -> Seq<u8> {
    Seq::new(data.len(), |i: int| shift_down(data[i], effective_key(key)))
}

/// The shift a key stands for.
fn effective_key_of(key: u8) -> (k: u8)
    ensures
        k == effective_key(key),
        k != 0,
{
    if key == 0 {
        128
    } else {
        key
    }
}

/// Shifts every byte of `data` up by the key (128 for a key of zero), wrapping at 256.
pub fn encrypt(data: &[u8], key: u8) -> (out: Vec<u8>)
    ensures
        out@ == encrypt_spec(data@, key),
        out@.len() == data@.len(),
        forall|i: int|
            0 <= i < data@.len() ==> #[trigger] out@[i] as int == (data@[i] as int + (if key == 0 {
                128int
            } else {
                key as int
            })) % 256,
{
    let k = effective_key_of(key);
    let mut out: Vec<u8> = Vec::with_capacity(data.len());
    let mut i: usize = 0;
    while i < data.len()
        invariant
            k == effective_key(key),
            i <= data.len(),
            out@.len() == i,
            forall|j: int| 0 <= j < i ==> out@[j] == shift_up(data@[j], k),
        decreases data.len() - i,
    {
        out.push(data[i].wrapping_add(k));
        i = i + 1;
    }
    assert(out@ =~= encrypt_spec(data@, key));
    proof {
        lemma_encrypt_arith(data@, key);
    }
    out
}

/// Shifts every byte of `data` down by the key (128 for a key of zero), wrapping at 256.
pub fn decrypt(data: &[u8], key: u8) -> (out: Vec<u8>)
    ensures
        out@ == decrypt_spec(data@, key),
        out@.len() == data@.len(),
        forall|i: int|
            0 <= i < data@.len() ==> #[trigger] out@[i] as int == (data@[i] as int + 256 - (if key
                == 0 {
                128int
            } else {
                key as int
            })) % 256,
{
    let k = effective_key_of(key);
    let mut out: Vec<u8> = Vec::with_capacity(data.len());
    let mut i: usize = 0;
    while i < data.len()
        invariant
            k == effective_key(key),
            i <= data.len(),
            out@.len() == i,
            forall|j: int| 0 <= j < i ==> out@[j] == shift_down(data@[j], k),
        decreases data.len() - i,
    {
        out.push(data[i].wrapping_sub(k));
        i = i + 1;
    }
    assert(out@ =~= decrypt_spec(data@, key));
    proof {
        lemma_decrypt_arith(data@, key);
    }
    out
}

/// Encryption adds the key to every byte modulo 256, the key 128 standing in
/// for a key of zero, and keeps the length.
pub proof fn lemma_encrypt_arith(data: Seq<u8>, key: u8)
    ensures
        encrypt_spec(data, key).len() == data.len(),
        forall|i: int|
            0 <= i < data.len() ==> #[trigger] encrypt_spec(data, key)[i] as int == (data[i] as int
                + (if key == 0 {
                128int
            } else {
                key as int
            })) % 256,
{
    assert forall|i: int| 0 <= i < data.len() implies #[trigger] encrypt_spec(data, key)[i] as int
        == (data[i] as int + (if key == 0 {
        128int
    } else {
        key as int
    })) % 256 by {
        let k: int = if key == 0 {
            128int
        } else {
            key as int
        };
        let b = data[i] as int;
        if b + k < 256 {
            assert((b + k) % 256 == b + k);
        } else {
            assert((b + k) % 256 == b + k - 256);
        }
    }
}

/// Decryption subtracts the key from every byte modulo 256, the key 128
/// standing in for a key of zero, and keeps the length.
pub proof fn lemma_decrypt_arith(data: Seq<u8>, key: u8)
    ensures
        decrypt_spec(data, key).len() == data.len(),
        forall|i: int|
            0 <= i < data.len() ==> #[trigger] decrypt_spec(data, key)[i] as int == (data[i] as int
                + 256 - (if key == 0 {
                128int
            } else {
                key as int
            })) % 256,
{
    assert forall|i: int| 0 <= i < data.len() implies #[trigger] decrypt_spec(data, key)[i] as int
        == (data[i] as int + 256 - (if key == 0 {
        128int
    } else {
        key as int
    })) % 256 by {
        let k: int = if key == 0 {
            128int
        } else {
            key as int
        };
        let b = data[i] as int;
        if b >= k {
            assert((b + 256 - k) % 256 == b - k);
        } else {
            assert((b + 256 - k) % 256 == b + 256 - k);
        }
    }
}

/// Decrypting with the key that encrypted gives the data back, for every key.
pub proof fn lemma_decrypt_encrypt(data: Seq<u8>, key: u8)
    ensures
        decrypt_spec(encrypt_spec(data, key), key) == data,
{
    assert(decrypt_spec(encrypt_spec(data, key), key) =~= data);
}

/// Encrypting what was decrypted with the same key gives the data back, for every key.
pub proof fn lemma_encrypt_decrypt(data: Seq<u8>, key: u8)
    ensures
        encrypt_spec(decrypt_spec(data, key), key) == data,
{
    assert(encrypt_spec(decrypt_spec(data, key), key) =~= data);
}

/// A key of zero encrypts as the key 128 does.
pub proof fn lemma_zero_key_is_128(data: Seq<u8>)
    ensures
        encrypt_spec(data, 0) == encrypt_spec(data, 128),
        decrypt_spec(data, 0) == decrypt_spec(data, 128),
{
    assert(encrypt_spec(data, 0) =~= encrypt_spec(data, 128));
    assert(decrypt_spec(data, 0) =~= decrypt_spec(data, 128));
}

/// Encryption never leaves a byte unchanged.
pub proof fn lemma_encrypt_changes_every_byte(data: Seq<u8>, key: u8)
    ensures
        forall|i: int| 0 <= i < data.len() ==> #[trigger] encrypt_spec(data, key)[i] != data[i],
{
}

} // verus!
