//! The rules of the secret store: how a value is sealed before it is stored,
//! and which stored records a caller may read.
//!
//! The store itself is elsewhere. Each function here takes what the store
//! handed back for a query and decides what the caller gets; a record that the
//! caller does not own is treated as if it were not there.

use crate::blob::FRAME_LEN;
use crate::cipher::{
    decrypt, decryption, encrypt, is_encryption, DecryptError, DecryptFailure, EncryptError,
};
use crate::encoding::{
    base64_bytes, base64_decode, base64_encode, base64_fits, base64_len, is_object_id,
    lossy_text, same_id, same_object_id, utf8_lossy, valid_object_id,
};
use crate::errors::ErrorKind;
use crate::models::Vault;
use crate::primitives::{cipher_accepts, KDF_MAX_LEN, TAG_LEN};
use crate::text::same_text;
use vstd::prelude::*;
use vstd::string::*;
use vstd::utf8::*;

verus! {

/// Mathematical content of a stored secret.
pub struct VaultView {
    pub id: Seq<char>,
    pub key: Seq<char>,
    pub value: Seq<char>,
    pub created_by: Seq<char>,
    pub created_at: Seq<char>,
}

impl View for Vault {
    type V = VaultView;

    open spec fn view(&self) -> VaultView {
        VaultView {
            id: self.id@,
            key: self.key@,
            value: self.value@,
            created_by: self.created_by@,
            created_at: self.created_at@,
        }
    }
}

/// The query that finds the records a caller may see: all of an owner, or the
/// one with a given identifier. The owner is part of every query.
#[derive(Debug)]
pub struct VaultFilter {
    pub id: Option<String>,
    pub created_by: String,
}

impl VaultFilter {
    /// Whether `record` answers this query.
    pub open spec fn matches(&self, record: VaultView) -> bool {
        &&& record.created_by == self.created_by@
        &&& self.id matches Some(id) ==> same_id(record.id, id@)
    }
}

/// Why a secret could not be sealed or revealed.
#[derive(Debug)]
pub enum VaultError {
    /// The identifier is not one of a stored record.
    InvalidId,
    /// The value could not be encrypted.
    Encrypt(EncryptError),
    /// The envelope is too large to be written as text on this machine.
    TooLarge,
    /// The stored value is not base64.
    Encoding(String),
    /// The stored envelope could not be opened.
    Decrypt(DecryptError),
}

/// The kinds of [`VaultError`] for which a stored value is not revealed.
pub enum RevealFailure {
    Encoding,
    Decrypt(DecryptFailure),
}

impl VaultError {
    /// The kind a caller is told.
    pub open spec fn spec_kind(&self) -> ErrorKind {
        match self {
            VaultError::InvalidId => ErrorKind::Validation,
            _ => ErrorKind::Crypto,
        }
    }

    /// The kind a caller is told.
    #[verifier::when_used_as_spec(spec_kind)]
    pub fn kind(&self) -> (res: ErrorKind)
        ensures
            res == self.spec_kind(),
    {
        match self {
            VaultError::InvalidId => ErrorKind::Validation,
            _ => ErrorKind::Crypto,
        }
    }

    /// Whether this error is the failure `failure` to reveal a value.
    pub open spec fn is_reveal_failure(&self, failure: RevealFailure) -> bool {
        match (self, failure) {
            (VaultError::Encoding(_), RevealFailure::Encoding) => true,
            (VaultError::Decrypt(e), RevealFailure::Decrypt(kind)) => e.kind() == kind,
            _ => false,
        }
    }
}

/// Bytes as text: decoded where they are UTF-8, and with replacement
/// characters where they are not.
pub open spec fn text_of_bytes(bytes: Seq<u8>) -> Seq<char> {
    if valid_utf8(bytes) {
        decode_utf8(bytes)
    } else {
        utf8_lossy(bytes)
    }
}

/// `stored` is the text under which `plaintext`, encrypted with `secret`, can
/// be stored.
pub open spec fn seals(stored: Seq<char>, plaintext: Seq<char>, secret: Seq<char>) -> bool {
    &&& base64_bytes(stored) is Some
    &&& is_encryption(base64_bytes(stored)->Some_0, encode_utf8(plaintext), encode_utf8(secret))
}

/// The length of the text under which `plaintext` is stored: the base64 text of
/// an envelope that frames the plaintext's bytes and their tag.
pub open spec fn sealed_len(plaintext: Seq<char>) -> int {
    base64_len(encode_utf8(plaintext).len() + TAG_LEN + FRAME_LEN)
}

/// A text has at least one byte for each of its characters.
pub proof fn lemma_utf8_len(text: Seq<char>)
    ensures
        encode_utf8(text).len() >= text.len(),
    decreases text.len(),
{
    if text.len() > 0 {
        lemma_utf8_len(text.drop_first());
    }
}

/// The text under which a value is stored is longer than the value, so the two
/// are never the same.
pub proof fn lemma_sealed_is_longer(plaintext: Seq<char>)
    ensures
        sealed_len(plaintext) > plaintext.len(),
{
    lemma_utf8_len(plaintext);
}

/// What opening the stored text `stored` with `secret` gives.
pub open spec fn revealed(stored: Seq<char>, secret: Seq<char>) -> Result<
    Seq<char>,
    RevealFailure,
> {
    match base64_bytes(stored) {
        None => Err(RevealFailure::Encoding),
        Some(bytes) => match decryption(bytes, encode_utf8(secret)) {
            Ok(plaintext) => Ok(text_of_bytes(plaintext)),
            Err(kind) => Err(RevealFailure::Decrypt(kind)),
        },
    }
}

/// A record as a listing shows it: with the revealed `value` in place of the
/// stored text.
pub open spec fn shown(record: VaultView, value: Seq<char>) -> VaultView {
    VaultView { value, ..record }
}

/// The predicate "is owned by `subject`".
pub open spec fn owned_by(subject: Seq<char>) -> spec_fn(VaultView) -> bool {
    |record: VaultView| record.created_by == subject
}

/// The records of `records` that `subject` owns, in their order.
pub open spec fn owned(records: Seq<VaultView>, subject: Seq<char>) -> Seq<VaultView> {
    records.filter(owned_by(subject))
}

/// Every one of `records` can be revealed with `secret`.
pub open spec fn all_reveal(records: Seq<VaultView>, secret: Seq<char>) -> bool {
    forall|i: int| 0 <= i < records.len() ==> revealed((#[trigger] records[i]).value, secret) is Ok
}

/// A listing for `subject` can be made of `records`: every record that
/// `subject` owns can be revealed.
pub open spec fn listable(records: Seq<VaultView>, subject: Seq<char>, secret: Seq<char>) -> bool {
    all_reveal(owned(records, subject), secret)
}

/// What a listing for `subject` shows of `records`, where it can be made: the
/// records that `subject` owns, in their order, each with its value revealed.
pub open spec fn listing(records: Seq<VaultView>, subject: Seq<char>, secret: Seq<char>) -> Seq<
    VaultView,
> {
    owned(records, subject).map_values(
        |record: VaultView| shown(record, revealed(record.value, secret)->Ok_0),
    )
}

/// The mathematical content of each record.
pub open spec fn views(records: Seq<Vault>) -> Seq<VaultView> {
    records.map_values(|record: Vault| record@)
}

/// Revealing what was sealed, with the same secret, gives the value back.
pub proof fn lemma_reveal_inverts_seal(stored: Seq<char>, plaintext: Seq<char>, secret: Seq<char>)
    requires
        seals(stored, plaintext, secret),
    ensures
        revealed(stored, secret) == Ok::<Seq<char>, RevealFailure>(plaintext),
{
    crate::cipher::lemma_decrypt_inverts_encrypt(
        base64_bytes(stored)->Some_0,
        encode_utf8(plaintext),
        encode_utf8(secret),
    );
    encode_utf8_valid_utf8(plaintext);
    encode_utf8_decode_utf8(plaintext);
}

/// A listing shows only records of the subject it is made for, and never more
/// records than there are.
pub proof fn lemma_listing_isolated(records: Seq<VaultView>, subject: Seq<char>, secret: Seq<char>)
    ensures
        listing(records, subject, secret).len() <= records.len(),
        forall|i: int|
            0 <= i < listing(records, subject, secret).len() ==> (#[trigger] listing(
                records,
                subject,
                secret,
            )[i]).created_by == subject,
        (forall|i: int| 0 <= i < records.len() ==> (#[trigger] records[i]).created_by != subject)
            ==> listing(records, subject, secret).len() == 0,
{
    let mine = owned(records, subject);
    records.lemma_filter_len(owned_by(subject));
    assert forall|i: int| 0 <= i < listing(records, subject, secret).len() implies (
    #[trigger] listing(records, subject, secret)[i]).created_by == subject by {
        records.lemma_filter_pred(owned_by(subject), i);
    }
    if forall|i: int| 0 <= i < records.len() ==> (#[trigger] records[i]).created_by != subject {
        if mine.len() > 0 {
            records.lemma_filter_pred(owned_by(subject), 0);
            records.lemma_filter_contains_rev(owned_by(subject), mine[0]);
        }
    }
}

/// A stored secret is listed for its owner with its value revealed, and is not
/// listed for anybody else.
pub proof fn lemma_created_secret_is_listed(
    record: VaultView,
    value: Seq<char>,
    secret: Seq<char>,
    subject: Seq<char>,
)
    requires
        seals(record.value, value, secret),
    ensures
        listable(seq![record], subject, secret),
        subject == record.created_by ==> listing(seq![record], subject, secret) == seq![
            VaultView { value, ..record },
        ],
        subject != record.created_by ==> listing(seq![record], subject, secret)
            == Seq::<VaultView>::empty(),
{
    lemma_reveal_inverts_seal(record.value, value, secret);
    lemma_owned_step(seq![record], subject, 0);
    reveal(Seq::filter);
    assert(seq![record].take(0) =~= Seq::<VaultView>::empty());
    assert(seq![record].take(1) =~= seq![record]);
    assert(owned(Seq::<VaultView>::empty(), subject) =~= Seq::<VaultView>::empty());
    if subject == record.created_by {
        assert(owned(seq![record], subject) =~= seq![record]);
        assert(listing(seq![record], subject, secret) =~= seq![VaultView { value, ..record }]);
    } else {
        assert(owned(seq![record], subject) =~= Seq::<VaultView>::empty());
        assert(listing(seq![record], subject, secret) =~= Seq::<VaultView>::empty());
    }
}

/// A listing cannot be made where a record of the subject does not reveal.
pub proof fn lemma_unrevealed_is_not_listed(
    records: Seq<VaultView>,
    subject: Seq<char>,
    secret: Seq<char>,
    i: int,
)
    requires
        0 <= i < records.len(),
        records[i].created_by == subject,
        revealed(records[i].value, secret) is Err,
    ensures
        !listable(records, subject, secret),
{
    records.lemma_filter_contains(owned_by(subject), i);
    let mine = owned(records, subject);
    let j = choose|j: int| 0 <= j < mine.len() && mine[j] == records[i];
    assert(revealed(mine[j].value, secret) is Err);
}

/// The owned records up to and with the `i`-th are the owned records before
/// it, followed by the `i`-th if the subject owns it.
proof fn lemma_owned_step(records: Seq<VaultView>, subject: Seq<char>, i: int)
    requires
        0 <= i < records.len(),
    ensures
        owned(records.take(i + 1), subject) == if records[i].created_by == subject {
            owned(records.take(i), subject).push(records[i])
        } else {
            owned(records.take(i), subject)
        },
{
    reveal(Seq::filter);
    let upto = records.take(i + 1);
    assert(upto.drop_last() =~= records.take(i));
    assert(upto.last() == records[i]);
}

/// The rules of the secret store for one deployment's shared secret.
#[derive(Debug)]
pub struct VaultRepository {
    pub encryption_key: String,
}

impl VaultRepository {
    pub fn new(encryption_key: String) -> (res: VaultRepository)
        ensures
            res.encryption_key == encryption_key,
    {
        VaultRepository { encryption_key }
    }

    /// The query for the one record `id` of `subject`, or `InvalidId` where
    /// `id` cannot name a record.
    pub fn secret_filter(&self, id: &str, subject: &str) -> (res: Result<VaultFilter, VaultError>)
        ensures
            res is Ok <==> is_object_id(id@),
            res matches Ok(filter) ==> filter.id matches Some(wanted) && wanted@ == id@
                && filter.created_by@ == subject@,
            res matches Ok(filter) ==> forall|record: VaultView|
                filter.matches(record) <==> same_id(record.id, id@) && record.created_by
                    == subject@,
            res matches Err(e) ==> e is InvalidId,
    {
        if !valid_object_id(id) {
            return Err(VaultError::InvalidId);
        }
        Ok(VaultFilter { id: Some(id.to_owned()), created_by: subject.to_owned() })
    }

    /// The query for all records of `subject`.
    pub fn owner_filter(&self, subject: &str) -> (res: VaultFilter)
        ensures
            res.id is None,
            res.created_by@ == subject@,
            forall|record: VaultView| res.matches(record) <==> record.created_by == subject@,
    {
        VaultFilter { id: None, created_by: subject.to_owned() }
    }

    /// Seals `value`: encrypts it with the shared secret and writes the
    /// envelope in base64.
    pub fn seal(&self, value: &str) -> (res: Result<String, VaultError>)
        ensures
            res is Ok <==> self.sealable(value@),
            res matches Ok(stored) ==> seals(stored@, value@, self.encryption_key@),
            res matches Ok(stored) ==> stored@.len() == sealed_len(value@) && stored@ != value@,
            res matches Err(e) ==> e is Encrypt || e is TooLarge,
    {
        let envelope = match encrypt(value.as_bytes(), self.encryption_key.as_str().as_bytes()) {
            Ok(envelope) => envelope,
            Err(e) => {
                return Err(VaultError::Encrypt(e));
            },
        };
        proof {
            let (salt, nonce) = choose|salt: Seq<u8>, nonce: Seq<u8>| #[trigger]
                crate::cipher::encrypts_with(
                    envelope@,
                    encode_utf8(value@),
                    encode_utf8(self.encryption_key@),
                    salt,
                    nonce,
                );
            vstd::bytes::lemma_auto_spec_u64_to_from_le_bytes();
            assert(envelope@.len() == encode_utf8(value@).len() + TAG_LEN + FRAME_LEN);
        }
        if envelope.len() > (isize::MAX as usize) / 4 * 3 {
            return Err(VaultError::TooLarge);
        }
        proof {
            lemma_sealed_is_longer(value@);
        }
        Ok(base64_encode(envelope.as_slice()))
    }

    /// The values that can be sealed: those the cipher takes, under a shared
    /// secret the key derivation takes, with an envelope that can be written as
    /// text.
    pub open spec fn sealable(&self, value: Seq<char>) -> bool {
        &&& encode_utf8(self.encryption_key@).len() <= KDF_MAX_LEN
        &&& cipher_accepts(encode_utf8(value))
        &&& base64_fits(encode_utf8(value).len() + TAG_LEN + FRAME_LEN)
    }

    /// Reveals a stored value: reads the base64 text and opens the envelope
    /// with the shared secret.
    pub fn unseal(&self, stored: &str) -> (res: Result<String, VaultError>)
        ensures
            res matches Ok(value) ==> revealed(stored@, self.encryption_key@) == Ok::<
                Seq<char>,
                RevealFailure,
            >(value@),
            res matches Err(e) ==> revealed(stored@, self.encryption_key@) is Err
                && e.is_reveal_failure(revealed(stored@, self.encryption_key@)->Err_0),
    {
        let envelope = match base64_decode(stored) {
            Ok(envelope) => envelope,
            Err(e) => {
                return Err(VaultError::Encoding(e));
            },
        };
        match decrypt(envelope.as_slice(), self.encryption_key.as_str().as_bytes()) {
            Ok(plaintext) => Ok(lossy_text(plaintext.as_slice())),
            Err(e) => Err(VaultError::Decrypt(e)),
        }
    }

    /// Makes the record to store for a new secret of `created_by`, with its
    /// value sealed.
    pub fn create_secret(
        &self,
        id: &str,
        key: &str,
        value: &str,
        created_by: &str,
        created_at: &str,
    ) -> (res: Result<Vault, VaultError>)
        ensures
            res is Ok <==> is_object_id(id@) && self.sealable(value@),
            res matches Ok(record) ==> {
                &&& record.id@ == id@
                &&& record.key@ == key@
                &&& record.created_by@ == created_by@
                &&& record.created_at@ == created_at@
                &&& seals(record.value@, value@, self.encryption_key@)
                &&& record.value@ != value@
            },
            res matches Err(e) ==> (e is InvalidId <==> !is_object_id(id@)),
    {
        if !valid_object_id(id) {
            return Err(VaultError::InvalidId);
        }
        let sealed = match self.seal(value) {
            Ok(sealed) => sealed,
            Err(e) => {
                return Err(e);
            },
        };
        Ok(
            Vault {
                id: id.to_owned(),
                key: key.to_owned(),
                value: sealed,
                created_by: created_by.to_owned(),
                created_at: created_at.to_owned(),
            },
        )
    }

    /// Decides what `subject` learns of the record `found` for the identifier
    /// `id`.
    ///
    /// Nothing (`Ok(None)`) where no record was found, and just the same where
    /// the record found has another identifier or another owner. Identifiers
    /// are the same where they differ in the case of their letters only. Otherwise the
    /// revealed value, or the reason why it could not be revealed.
    pub fn get_secret_by_id(&self, found: Option<&Vault>, id: &str, subject: &str) -> (res: Result<
        Option<String>,
        VaultError,
    >)
        ensures
            !is_object_id(id@) ==> (res matches Err(e) && e is InvalidId),
            is_object_id(id@) ==> match found {
                Some(record) if same_id(record.id@, id@) && record.created_by@ == subject@ => {
                    match revealed(record.value@, self.encryption_key@) {
                        Ok(value) => res matches Ok(Some(text)) && text@ == value,
                        Err(failure) => res matches Err(e) && e.is_reveal_failure(failure),
                    }
                },
                _ => res matches Ok(None),
            },
    {
        if !valid_object_id(id) {
            return Err(VaultError::InvalidId);
        }
        match found {
            Some(record) => {
                if !same_object_id(record.id.as_str(), id) || !same_text(
                    record.created_by.as_str(),
                    subject,
                ) {
                    return Ok(None);
                }
                match self.unseal(record.value.as_str()) {
                    Ok(value) => Ok(Some(value)),
                    Err(e) => Err(e),
                }
            },
            None => Ok(None),
        }
    }

    /// Decides what `subject` learns of the record `deleted`, which the store
    /// removed for the identifier `id`: the same as [`Self::get_secret_by_id`]
    /// would have revealed of it.
    pub fn delete_secret(&self, deleted: Option<&Vault>, id: &str, subject: &str) -> (res: Result<
        Option<String>,
        VaultError,
    >)
        ensures
            !is_object_id(id@) ==> (res matches Err(e) && e is InvalidId),
            is_object_id(id@) ==> match deleted {
                Some(record) if same_id(record.id@, id@) && record.created_by@ == subject@ => {
                    match revealed(record.value@, self.encryption_key@) {
                        Ok(value) => res matches Ok(Some(text)) && text@ == value,
                        Err(failure) => res matches Err(e) && e.is_reveal_failure(failure),
                    }
                },
                _ => res matches Ok(None),
            },
    {
        self.get_secret_by_id(deleted, id, subject)
    }

    /// Lists what `subject` may see of `found`: the records that `subject`
    /// owns, in their order, each with its value revealed.
    ///
    /// A record of the subject whose value cannot be revealed fails the whole
    /// listing: no stored text is ever shown in the place of a value. Records
    /// of other owners are passed over without being opened.
    pub fn list_secrets(&self, found: &Vec<Vault>, subject: &str) -> (res: Result<
        Vec<Vault>,
        VaultError,
    >)
        ensures
            res is Ok <==> listable(views(found@), subject@, self.encryption_key@),
            res matches Ok(entries) ==> views(entries@) == listing(
                views(found@),
                subject@,
                self.encryption_key@,
            ),
            res matches Err(e) ==> e.spec_kind() == ErrorKind::Crypto,
    {
        let mut secrets: Vec<Vault> = Vec::new();
        let mut i: usize = 0;
        assert(views(found@).take(0) =~= Seq::<VaultView>::empty());
        assert(views(secrets@) =~= Seq::<VaultView>::empty());
        proof {
            reveal(Seq::filter);
        }
        while i < found.len()
            invariant
                i <= found.len(),
                listable(views(found@).take(i as int), subject@, self.encryption_key@),
                views(secrets@) == listing(
                    views(found@).take(i as int),
                    subject@,
                    self.encryption_key@,
                ),
            decreases found.len() - i,
        {
            let record = &found[i];
            proof {
                lemma_owned_step(views(found@), subject@, i as int);
            }
            if same_text(record.created_by.as_str(), subject) {
                let value = match self.unseal(record.value.as_str()) {
                    Ok(value) => value,
                    Err(e) => {
                        proof {
                            lemma_unrevealed_is_not_listed(
                                views(found@),
                                subject@,
                                self.encryption_key@,
                                i as int,
                            );
                        }
                        return Err(e);
                    },
                };
                let entry = Vault {
                    id: record.id.clone(),
                    key: record.key.clone(),
                    value,
                    created_by: record.created_by.clone(),
                    created_at: record.created_at.clone(),
                };
                let ghost before = secrets@;
                let ghost mine = owned(views(found@).take(i as int), subject@);
                secrets.push(entry);
                assert(views(secrets@) =~= views(before).push(entry@));
                assert(listing(views(found@).take(i + 1), subject@, self.encryption_key@)
                    =~= listing(views(found@).take(i as int), subject@, self.encryption_key@).push(
                    entry@,
                ));
                assert(all_reveal(mine.push(record@), self.encryption_key@)) by {
                    assert forall|j: int| 0 <= j < mine.push(record@).len() implies revealed(
                        (#[trigger] mine.push(record@)[j]).value,
                        self.encryption_key@,
                    ) is Ok by {
                        if j < mine.len() {
                            assert(mine.push(record@)[j] == mine[j]);
                        }
                    }
                }
            }
            i += 1;
        }
        assert(views(found@).take(found.len() as int) =~= views(found@));
        Ok(secrets)
    }

    /// Lists the records of the author `created_by`, as [`Self::list_secrets`]
    /// does. The caller answers for `created_by` being the verified subject.
    pub fn get_secret_by_author(&self, found: &Vec<Vault>, created_by: &str) -> (res: Result<
        Vec<Vault>,
        VaultError,
    >)
        ensures
            res is Ok <==> listable(views(found@), created_by@, self.encryption_key@),
            res matches Ok(entries) ==> views(entries@) == listing(
                views(found@),
                created_by@,
                self.encryption_key@,
            ),
            res matches Err(e) ==> e.spec_kind() == ErrorKind::Crypto,
    {
        self.list_secrets(found, created_by)
    }
}

} // verus!
