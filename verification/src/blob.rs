//! The self-describing envelope that an encrypted value is stored in.
//!
//! On the wire an envelope is the ciphertext's length as eight little-endian
//! bytes, the ciphertext, the 12-byte nonce and the 32-byte salt, in that
//! order. Bytes after the salt are ignored when an envelope is read.

use vstd::prelude::*;
use vstd::bytes::*;
use vstd::slice::*;

verus! {

/// Length of the nonce of the authenticated cipher, in bytes.
pub const NONCE_LEN: usize = 12;

/// Length of the salt of the key derivation, in bytes.
pub const SALT_LEN: usize = 32;

/// Bytes that frame the ciphertext: the length prefix, the nonce and the salt.
pub const FRAME_LEN: usize = 52;

/// Ciphertext with the nonce and salt that are needed to open it again.
#[derive(Debug)]
pub struct EncryptedBlob {
    pub data: Vec<u8>,
    pub nonce: Vec<u8>,
    pub salt: Vec<u8>,
}

/// Mathematical content of an [`EncryptedBlob`].
pub struct BlobView {
    pub data: Seq<u8>,
    pub nonce: Seq<u8>,
    pub salt: Seq<u8>,
}

impl BlobView {
    /// The nonce and the salt have their fixed lengths and the ciphertext's
    /// length fits the length prefix.
    pub open spec fn wf(self) -> bool {
        &&& self.nonce.len() == NONCE_LEN
        &&& self.salt.len() == SALT_LEN
        &&& self.data.len() <= u64::MAX
    }
}

/// The wire form of an envelope.
pub open spec fn wire(blob: BlobView) -> Seq<u8> {
    spec_u64_to_le_bytes(blob.data.len() as u64) + blob.data + blob.nonce + blob.salt
}

/// The envelope that a byte string starts with, if it starts with one.
pub open spec fn parse(bytes: Seq<u8>) -> Option<BlobView> {
    if bytes.len() < FRAME_LEN {
        None
    } else {
        let n = spec_u64_from_le_bytes(bytes.subrange(0, 8)) as int;
        if bytes.len() - FRAME_LEN < n {
            None
        } else {
            Some(
                BlobView {
                    data: bytes.subrange(8, 8 + n),
                    nonce: bytes.subrange(8 + n, 8 + n + NONCE_LEN),
                    salt: bytes.subrange(8 + n + NONCE_LEN, 8 + n + NONCE_LEN + SALT_LEN),
                },
            )
        }
    }
}

/// Reading what was written gives back the same envelope, whatever follows it.
pub proof fn lemma_parse_wire(blob: BlobView, rest: Seq<u8>)
    requires
        blob.wf(),
    ensures
        parse(wire(blob) + rest) == Some(blob),
        parse(wire(blob)) == Some(blob),
{
    lemma_auto_spec_u64_to_from_le_bytes();
    let n = blob.data.len() as u64;
    let head = spec_u64_to_le_bytes(n);
    let w = wire(blob);
    assert(w.len() == FRAME_LEN + blob.data.len());
    assert((w + rest).subrange(0, 8) =~= head);
    assert(w.subrange(0, 8) =~= head);
    let parsed = parse(w + rest)->Some_0;
    assert(parsed.data =~= blob.data);
    assert(parsed.nonce =~= blob.nonce);
    assert(parsed.salt =~= blob.salt);
    let exact = parse(w)->Some_0;
    assert(exact.data =~= blob.data);
    assert(exact.nonce =~= blob.nonce);
    assert(exact.salt =~= blob.salt);
}

/// Whatever can be read from a byte string is a well-formed envelope whose wire
/// form is a prefix of that string.
pub proof fn lemma_wire_parse(bytes: Seq<u8>)
    requires
        parse(bytes) is Some,
    ensures
        parse(bytes)->Some_0.wf(),
        wire(parse(bytes)->Some_0) == bytes.subrange(
            0,
            FRAME_LEN + parse(bytes)->Some_0.data.len(),
        ),
{
    lemma_auto_spec_u64_to_from_le_bytes();
    let blob = parse(bytes)->Some_0;
    let head = bytes.subrange(0, 8);
    assert(spec_u64_to_le_bytes(spec_u64_from_le_bytes(head)) == head);
    assert(wire(blob) =~= bytes.subrange(0, FRAME_LEN + blob.data.len()));
}

impl View for EncryptedBlob {
    type V = BlobView;

    open spec fn view(&self) -> BlobView {
        BlobView { data: self.data@, nonce: self.nonce@, salt: self.salt@ }
    }
}

impl EncryptedBlob {
    /// The nonce and the salt have their fixed lengths.
    pub open spec fn wf(&self) -> bool {
        self@.wf()
    }

    /// Puts the three parts together, or returns `None` where the nonce or the
    /// salt has the wrong length.
    pub fn new(data: Vec<u8>, nonce: Vec<u8>, salt: Vec<u8>) -> (res: Option<EncryptedBlob>)
        ensures
            res is Some <==> nonce.len() == NONCE_LEN && salt.len() == SALT_LEN,
            res matches Some(blob) ==> blob.data == data && blob.nonce == nonce && blob.salt
                == salt,
            res matches Some(blob) ==> blob.wf(),
    {
        let data_len: usize = data.len();
        if nonce.len() == NONCE_LEN && salt.len() == SALT_LEN {
            assert(data_len <= u64::MAX);
            Some(EncryptedBlob { data, nonce, salt })
        } else {
            None
        }
    }

    /// Serialises the envelope.
    pub fn to_bytes(&self) -> (res: Vec<u8>)
        requires
            self.wf(),
        ensures
            res@ == wire(self@),
            parse(res@) == Some(self@),
    {
        let mut out: Vec<u8> = u64_to_le_bytes(self.data.len() as u64);
        out.extend_from_slice(self.data.as_slice());
        out.extend_from_slice(self.nonce.as_slice());
        out.extend_from_slice(self.salt.as_slice());
        proof {
            lemma_parse_wire(self@, Seq::empty());
        }
        out
    }

    /// Reads the envelope that `bytes` starts with. Fails where `bytes` is
    /// shorter than the frame or than the ciphertext length it announces.
    pub fn from_bytes(bytes: &[u8]) -> (res: Option<EncryptedBlob>)
        ensures
            res is Some <==> parse(bytes@) is Some,
            res matches Some(blob) ==> blob@ == parse(bytes@)->Some_0 && blob.wf(),
    {
        if bytes.len() < FRAME_LEN {
            return None;
        }
        let n: u64 = u64_from_le_bytes(slice_subrange(bytes, 0, 8));
        if ((bytes.len() - FRAME_LEN) as u64) < n {
            return None;
        }
        let len: usize = n as usize;
        let data = slice_to_vec(slice_subrange(bytes, 8, 8 + len));
        let nonce = slice_to_vec(slice_subrange(bytes, 8 + len, 8 + len + NONCE_LEN));
        let salt = slice_to_vec(
            slice_subrange(bytes, 8 + len + NONCE_LEN, 8 + len + NONCE_LEN + SALT_LEN),
        );
        Some(EncryptedBlob { data, nonce, salt })
    }
}

} // verus!
