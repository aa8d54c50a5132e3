//! Protection of early application data under a pre-shared secret.
//!
//! The transform is a stand-in with the shape of an authenticated cipher:
//! the output is sixteen bytes longer than the input, opening inverts
//! sealing, and opening fails when the tag does not fit the recovered data.
//! It hides nothing from an adversary.

use vstd::prelude::*;
use crate::bytes::checksum;
use crate::bytes::checksum_of;

verus! {

/// Length in bytes of the tag that closes every sealed message.
pub const TAG_LEN: usize = 16;

/// The pad added to the data byte at index `i`.
pub open spec fn pad(psk: Seq<u8>, nonce: u64, i: int) -> int {
    (checksum(psk) as int + nonce as int % 256 + i) % 256
}

/// Byte `j` of the tag over `data`.
pub open spec fn tag_byte(psk: Seq<u8>, data: Seq<u8>, j: int) -> u8 {
    ((checksum(psk) as int + checksum(data) as int + j) % 256) as u8
}

/// The sealed form of `data`: each byte moved by its pad, then the tag.
pub open spec fn sealed(psk: Seq<u8>, nonce: u64, data: Seq<u8>) -> Seq<u8> {
    Seq::new(
        data.len() + TAG_LEN as nat,
        |i: int|
            if i < data.len() {
                ((data[i] as int + pad(psk, nonce, i)) % 256) as u8
            } else {
                tag_byte(psk, data, i - data.len())
            },
    )
}

/// The data bytes that a sealed message carries, before the tag is checked.
pub open spec fn unpadded(psk: Seq<u8>, nonce: u64, message: Seq<u8>) -> Seq<u8> {
    Seq::new(
        (message.len() - TAG_LEN) as nat,
        |i: int| ((message[i] as int + 256 - pad(psk, nonce, i)) % 256) as u8,
    )
}

/// The data that a sealed message opens to, if it is long enough to hold a
/// tag and the tag fits.
pub open spec fn opened(psk: Seq<u8>, nonce: u64, message: Seq<u8>) -> Option<Seq<u8>> {
    if message.len() < TAG_LEN {
        None
    } else {
        let data = unpadded(psk, nonce, message);
        if forall|j: int|
            0 <= j < TAG_LEN ==> #[trigger] message[data.len() + j] == tag_byte(psk, data, j) {
            Some(data)
        } else {
            None
        }
    }
}

/// Opening what was sealed under the same secret and nonce gives the data back.
pub proof fn lemma_open_inverts_seal(psk: Seq<u8>, nonce: u64, data: Seq<u8>)
    ensures
        opened(psk, nonce, sealed(psk, nonce, data)) == Some(data),
{
    let message = sealed(psk, nonce, data);
    let back = unpadded(psk, nonce, message);
    assert(back =~= data);
}

/// Seals `data` under `psk` and `nonce`.
pub fn seal(psk: &[u8], nonce: u64, data: &[u8]) -> (out: Vec<u8>)
    ensures
        out@ == sealed(psk@, nonce, data@),
{
    let key: u64 = checksum_of(psk) as u64 + nonce % 256;
    let key_sum: u64 = checksum_of(psk) as u64;
    let data_sum: u64 = checksum_of(data) as u64;
    let mut out: Vec<u8> = Vec::new();
    let mut i: usize = 0;
    while i < data.len()
        invariant
            i <= data@.len(),
            key == checksum(psk@) as int + nonce as int % 256,
            out@.len() == i,
            forall|k: int| 0 <= k < i ==> out@[k] == sealed(psk@, nonce, data@)[k],
        decreases data@.len() - i,
    {
        let shift: u64 = (key + (i % 256) as u64) % 256;
        out.push(((data[i] as u64 + shift) % 256) as u8);
        i = i + 1;
    }
    let mut j: usize = 0;
    while j < TAG_LEN
        invariant
            j <= TAG_LEN,
            key_sum == checksum(psk@),
            data_sum == checksum(data@),
            out@.len() == data@.len() + j,
            forall|k: int| 0 <= k < out@.len() ==> out@[k] == sealed(psk@, nonce, data@)[k],
        decreases TAG_LEN - j,
    {
        out.push(((key_sum + data_sum + j as u64) % 256) as u8);
        j = j + 1;
    }
    out
}

/// Opens a sealed message under `psk` and `nonce`.
pub fn open(psk: &[u8], nonce: u64, message: &[u8]) -> (out: Option<Vec<u8>>)
    ensures
        match out {
            Some(data) => opened(psk@, nonce, message@) == Some(data@),
            None => opened(psk@, nonce, message@) is None,
        },
{
    if message.len() < TAG_LEN {
        return None;
    }
    let total: usize = message.len();
    let len: usize = total - TAG_LEN;
    let key: u64 = checksum_of(psk) as u64 + nonce % 256;
    let key_sum: u64 = checksum_of(psk) as u64;
    let mut data: Vec<u8> = Vec::new();
    let mut i: usize = 0;
    while i < len
        invariant
            i <= len,
            len == message@.len() - TAG_LEN,
            key == checksum(psk@) as int + nonce as int % 256,
            data@.len() == i,
            forall|k: int| 0 <= k < i ==> data@[k] == unpadded(psk@, nonce, message@)[k],
        decreases len - i,
    {
        let shift: u64 = (key + (i % 256) as u64) % 256;
        data.push(((message[i] as u64 + 256 - shift) % 256) as u8);
        i = i + 1;
    }
    let data_sum: u64 = checksum_of(data.as_slice()) as u64;
    let mut j: usize = 0;
    while j < TAG_LEN
        invariant
            j <= TAG_LEN,
            total == message@.len(),
            len == total - TAG_LEN,
            data@ == unpadded(psk@, nonce, message@),
            key_sum == checksum(psk@),
            data_sum == checksum(data@),
            forall|k: int| 0 <= k < j ==> #[trigger] message@[len + k] == tag_byte(psk@, data@, k),
        decreases TAG_LEN - j,
    {
        if message[len + j] != ((key_sum + data_sum + j as u64) % 256) as u8 {
            return None;
        }
        j = j + 1;
    }
    Some(data)
}

} // verus!
