//! The deployment's signing key pair: made once, stored as text, and decoded
//! into key bytes whenever a token is signed or opened.

use crate::encoding::{base64_bytes, base64_decode, base64_encode, base64_fits, base64_text};
use crate::models::KeyPairDocument;
use crate::paseto::{
    check_secret_key, generate_key_pair, public_half, secret_key_accepted,
    seed_nonzero, PUBLIC_KEY_LEN, SECRET_KEY_LEN,
};
use vstd::prelude::*;

verus! {

/// The identifier under which the one key pair of a deployment is stored, so
/// that a store can insert it if, and only if, none is there yet.
pub const KEY_PAIR_ID: &'static str = "signing-key-pair";

/// A secret key and a public key, checked and ready for use.
#[derive(Debug)]
pub struct SigningKeys {
    pub secret: Vec<u8>,
    pub public: Vec<u8>,
}

impl SigningKeys {
    /// Both keys have passed the checks of the token scheme.
    pub open spec fn wf(&self) -> bool {
        &&& self.secret.len() == SECRET_KEY_LEN
        &&& seed_nonzero(self.secret@)
        &&& secret_key_accepted(self.secret@)
        &&& self.public.len() == PUBLIC_KEY_LEN
    }

    /// The public key is the one that belongs to the secret key.
    pub open spec fn matched(&self) -> bool {
        self.public@ == public_half(self.secret@)
    }
}

/// The key bytes that a stored key pair stands for, where both of its texts are
/// base64 and both keys pass the checks of the token scheme.
pub open spec fn decoded(pair: KeyPairDocument) -> Option<(Seq<u8>, Seq<u8>)> {
    match (base64_bytes(pair.private_key@), base64_bytes(pair.public_key@)) {
        (Some(secret), Some(public)) => {
            if secret.len() == SECRET_KEY_LEN && seed_nonzero(secret) && secret_key_accepted(
                secret,
            ) && public.len() == PUBLIC_KEY_LEN {
                Some((secret, public))
            } else {
                None
            }
        },
        _ => None,
    }
}

/// A stored key pair whose keys decode and belong together.
pub open spec fn is_key_pair(pair: KeyPairDocument) -> bool {
    &&& decoded(pair) is Some
    &&& decoded(pair)->Some_0.1 == public_half(decoded(pair)->Some_0.0)
}

/// What an access to the stored key pair comes to.
#[derive(Debug)]
pub enum KeyPairOutcome {
    /// The pair that was found in the store. Nothing is to be written.
    Existing(KeyPairDocument),
    /// A pair made now, to be inserted under [`KEY_PAIR_ID`] unless one has
    /// appeared there meanwhile.
    Created(KeyPairDocument),
}

impl KeyPairOutcome {
    /// The key pair of this outcome.
    pub open spec fn pair(self) -> KeyPairDocument {
        match self {
            KeyPairOutcome::Existing(pair) => pair,
            KeyPairOutcome::Created(pair) => pair,
        }
    }

    /// Takes the key pair out.
    pub fn into_pair(self) -> (res: KeyPairDocument)
        ensures
            res == self.pair(),
    {
        match self {
            KeyPairOutcome::Existing(pair) => pair,
            KeyPairOutcome::Created(pair) => pair,
        }
    }
}

/// The key pair that is authoritative once `outcome` has been carried out and
/// the store answered with `stored`, the pair it now holds.
pub open spec fn settled(outcome: KeyPairOutcome, stored: KeyPairDocument) -> KeyPairDocument {
    match outcome {
        KeyPairOutcome::Existing(pair) => pair,
        KeyPairOutcome::Created(_) => stored,
    }
}

/// What an access comes to when the store holds `found` and `fresh` is the pair
/// that would be made if none is there.
pub open spec fn resolution(
    found: Option<KeyPairDocument>,
    fresh: KeyPairDocument,
) -> KeyPairOutcome {
    match found {
        Some(pair) => KeyPairOutcome::Existing(pair),
        None => KeyPairOutcome::Created(fresh),
    }
}

/// The rules by which the deployment comes to its one key pair.
#[derive(Debug)]
pub struct KeyRepository {}

impl KeyRepository {
    pub fn new() -> (res: KeyRepository) {
        KeyRepository {}
    }

    /// Decides what the stored key pair is, given the pair `found` that a look
    /// into the store came back with.
    ///
    /// A pair that was found is returned as it is. Where none was found a new
    /// pair is generated and both keys are encoded for storage; a failure to
    /// generate is returned and nothing is retried.
    pub fn get_or_create_key_pair(&self, found: Option<KeyPairDocument>, created_at: &str) -> (res:
        Result<KeyPairOutcome, String>)
        ensures
            found is Some ==> res is Ok,
            res matches Ok(outcome) ==> outcome == resolution(found, outcome.pair()),
            res matches Ok(outcome) ==> (outcome is Created ==> is_key_pair(outcome.pair())
                && outcome.pair().created_at@ == created_at@),
    {
        match found {
            Some(pair) => Ok(KeyPairOutcome::Existing(pair)),
            None => {
                let (secret, public) = match generate_key_pair() {
                    Ok(pair) => pair,
                    Err(e) => {
                        return Err(e);
                    },
                };
                assert(public@.len() == PUBLIC_KEY_LEN);
                let pair = key_pair_document(secret.as_slice(), public.as_slice(), created_at);
                Ok(KeyPairOutcome::Created(pair))
            },
        }
    }

    /// The key pair to use after the store has carried out `outcome`: the pair
    /// that was found, or else whatever pair the store holds after the insert,
    /// which is the one made here unless another was there first.
    pub fn settle(&self, outcome: KeyPairOutcome, stored: KeyPairDocument) -> (res:
        KeyPairDocument)
        ensures
            res == settled(outcome, stored),
    {
        match outcome {
            KeyPairOutcome::Existing(pair) => pair,
            KeyPairOutcome::Created(_) => stored,
        }
    }
}

/// The document under which a key pair is stored: both keys in standard base64,
/// from which they decode again, and the time of creation.
pub fn key_pair_document(secret: &[u8], public: &[u8], created_at: &str) -> (res: KeyPairDocument)
    requires
        base64_fits(secret@.len() as int),
        base64_fits(public@.len() as int),
    ensures
        res.private_key@ == base64_text(secret@),
        res.public_key@ == base64_text(public@),
        base64_bytes(res.private_key@) == Some(secret@),
        base64_bytes(res.public_key@) == Some(public@),
        res.created_at@ == created_at@,
{
    KeyPairDocument {
        private_key: base64_encode(secret),
        public_key: base64_encode(public),
        created_at: created_at.to_owned(),
    }
}

/// Once a key pair is settled, every later access returns that pair: whatever
/// the first access found or made, and whatever a later access could have
/// made, the later access finds the settled pair and returns it unchanged.
pub proof fn lemma_key_pair_idempotent(
    found: Option<KeyPairDocument>,
    fresh_first: KeyPairDocument,
    stored: KeyPairDocument,
    fresh_second: KeyPairDocument,
    stored_later: KeyPairDocument,
)
    ensures
        ({
            let first = resolution(found, fresh_first);
            let kept = settled(first, stored);
            let second = resolution(Some(kept), fresh_second);
            &&& second == KeyPairOutcome::Existing(kept)
            &&& second.pair() == kept
            &&& settled(second, stored_later) == kept
        }),
{
}

/// Whether the first 32 bytes of `bytes` hold a byte that is not zero.
fn has_nonzero_seed(bytes: &[u8]) -> (res: bool)
    requires
        bytes.len() >= PUBLIC_KEY_LEN,
    ensures
        res == seed_nonzero(bytes@),
{
    let mut i: usize = 0;
    while i < PUBLIC_KEY_LEN
        invariant
            i <= PUBLIC_KEY_LEN,
            bytes.len() >= PUBLIC_KEY_LEN,
            forall|j: int| 0 <= j < i ==> bytes@[j] == 0,
        decreases PUBLIC_KEY_LEN - i,
    {
        if bytes[i] != 0 {
            return true;
        }
        i += 1;
    }
    false
}

/// Decodes a stored key pair into key bytes.
///
/// Fails where either text is not base64 or either key does not pass the
/// checks of the token scheme; a secret key whose seed is all zeros is
/// refused like any other invalid key.
pub fn decode_keys(pair: &KeyPairDocument) -> (res: Result<SigningKeys, String>)
    ensures
        res is Ok <==> decoded(*pair) is Some,
        res matches Ok(keys) ==> keys.wf() && decoded(*pair) == Some((keys.secret@, keys.public@)),
        res matches Ok(keys) ==> (keys.matched() <==> is_key_pair(*pair)),
{
    let secret = match base64_decode(pair.private_key.as_str()) {
        Ok(bytes) => bytes,
        Err(e) => {
            return Err(e);
        },
    };
    if secret.len() != SECRET_KEY_LEN || !has_nonzero_seed(secret.as_slice()) {
        return Err("Key".to_owned());
    }
    match check_secret_key(secret.as_slice()) {
        Ok(()) => {},
        Err(e) => {
            return Err(e);
        },
    }
    let public = match base64_decode(pair.public_key.as_str()) {
        Ok(bytes) => bytes,
        Err(e) => {
            return Err(e);
        },
    };
    if public.len() != PUBLIC_KEY_LEN {
        return Err("Key".to_owned());
    }
    Ok(SigningKeys { secret, public })
}

} // verus!
