//! Sealed receipts: what an accepted effect returned, readable only for that effect.

use vstd::prelude::*;
use vstd::utf8::encode_utf8;

use crate::contract::{failure, RuntimeFailure};
use crate::crypto::{
    aes_open, aes_seal, erase, opened_bytes, random_bytes, seal_limit, sealed_bytes, sha256,
    sha256_digest,
};
use crate::effects::EffectRecord;

verus! {

/// What an accepted effect returned.
pub struct EffectReceipt {
    pub url: String,
    pub expires_at: Option<String>,
}

/// A sealed receipt: the nonce and the ciphertext.
pub struct SealedReceipt {
    pub nonce: Vec<u8>,
    pub ciphertext: Vec<u8>,
}

/// The key that seals receipts. It is left out of the debug evidence.
pub struct ReceiptCipher {
    key: Vec<u8>,
}

/// The message that refuses to seal under a key of this length.
pub open spec fn seal_error(key: Seq<u8>, plaintext: Seq<u8>, aad: Seq<u8>) -> Option<Seq<char>> {
    if key.len() != 32 {
        Some("invalid Stripe receipt encryption key"@)
    } else if plaintext.len() > seal_limit() || aad.len() > seal_limit() {
        Some("Stripe receipt encryption failed"@)
    } else {
        None
    }
}

/// What opening a sealed receipt gives: the plaintext, or the message of the failure.
pub open spec fn opening(key: Seq<u8>, nonce: Seq<u8>, ciphertext: Seq<u8>, aad: Seq<u8>) -> Result<
    Seq<u8>,
    Seq<char>,
> {
    if nonce.len() != 12 {
        Err("Stripe receipt nonce is invalid"@)
    } else if key.len() != 32 {
        Err("invalid Stripe receipt encryption key"@)
    } else {
        match opened_bytes(key, nonce, ciphertext, aad) {
            Some(plaintext) => Ok(plaintext),
            None => Err("Stripe receipt decryption failed"@),
        }
    }
}

impl ReceiptCipher {
    /// The key.
    pub closed spec fn key(&self) -> Seq<u8> {
        self.key@
    }

    /// Derives the key from a secret.
    pub fn derive(secret: &[u8]) -> (r: Self)
        ensures
            r.key() == sha256_digest(secret@),
            r.key().len() == 32,
    {
        ReceiptCipher { key: sha256(secret) }
    }

    /// Seals a plaintext under a nonce, if there is one.
    pub fn seal(&self, nonce: Result<Vec<u8>, String>, plaintext: &[u8], aad: &[u8]) -> (r: Result<
        SealedReceipt,
        RuntimeFailure,
    >)
        requires
            nonce is Ok ==> nonce->Ok_0@.len() == 12,
        ensures
            match nonce {
                Err(detail) => r == Err::<SealedReceipt, RuntimeFailure>(RuntimeFailure { detail }),
                Ok(nonce) => match seal_error(self.key(), plaintext@, aad@) {
                    Some(message) => r is Err && r->Err_0.detail@ == message,
                    None => {
                        &&& r is Ok
                        &&& r->Ok_0.nonce == nonce
                        &&& r->Ok_0.ciphertext@ == sealed_bytes(
                            self.key(),
                            nonce@,
                            plaintext@,
                            aad@,
                        )
                    },
                },
            },
            r is Ok ==> opening(self.key(), r->Ok_0.nonce@, r->Ok_0.ciphertext@, aad@) == Ok::<
                Seq<u8>,
                Seq<char>,
            >(plaintext@),
    {
        let nonce = match nonce {
            Ok(nonce) => nonce,
            Err(detail) => return Err(failure(detail)),
        };
        if self.key.len() != 32 {
            return Err(failure("invalid Stripe receipt encryption key".to_owned()));
        }
        match aes_seal(self.key.as_slice(), nonce.as_slice(), plaintext, aad) {
            Some(ciphertext) => Ok(SealedReceipt { nonce, ciphertext }),
            None => Err(failure("Stripe receipt encryption failed".to_owned())),
        }
    }

    /// Seals a plaintext for one effect under a random nonce. What is sealed opens again, for the
    /// same effect, to the same plaintext. Sealing fails where the random source does.
    pub fn encrypt(&self, plaintext: &[u8], aad: &[u8]) -> (r: Result<SealedReceipt, RuntimeFailure>)
        ensures
            seal_error(self.key(), plaintext@, aad@) is Some ==> r is Err,
            r is Ok ==> {
                &&& r->Ok_0.nonce@.len() == 12
                &&& r->Ok_0.ciphertext@ == sealed_bytes(
                    self.key(),
                    r->Ok_0.nonce@,
                    plaintext@,
                    aad@,
                )
                &&& opening(self.key(), r->Ok_0.nonce@, r->Ok_0.ciphertext@, aad@) == Ok::<
                    Seq<u8>,
                    Seq<char>,
                >(plaintext@)
            },
    {
        self.seal(random_bytes(12), plaintext, aad)
    }

    /// Opens a sealed plaintext.
    pub fn decrypt(&self, nonce: &[u8], ciphertext: &[u8], aad: &[u8]) -> (r: Result<
        Vec<u8>,
        RuntimeFailure,
    >)
        ensures
            match opening(self.key(), nonce@, ciphertext@, aad@) {
                Ok(plaintext) => r is Ok && r->Ok_0@ == plaintext,
                Err(message) => r is Err && r->Err_0.detail@ == message,
            },
    {
        if nonce.len() != 12 {
            return Err(failure("Stripe receipt nonce is invalid".to_owned()));
        }
        if self.key.len() != 32 {
            return Err(failure("invalid Stripe receipt encryption key".to_owned()));
        }
        match aes_open(self.key.as_slice(), nonce, ciphertext, aad) {
            Some(plaintext) => Ok(plaintext),
            None => Err(failure("Stripe receipt decryption failed".to_owned())),
        }
    }

    /// Overwrites the key. The cipher seals and opens nothing afterwards.
    pub fn wipe(&mut self)
        ensures
            final(self).key() == Seq::<u8>::empty(),
    {
        erase(&mut self.key);
    }

    /// The debug evidence, which shows nothing of the key.
    pub fn debug_evidence(&self) -> (r: String)
        ensures
            r@ == "ReceiptCipher(<redacted>)"@,
    {
        "ReceiptCipher(<redacted>)".to_owned()
    }
}

/// What opening the receipt of a record gives.
pub open spec fn record_opening(key: Seq<u8>, record: EffectRecord) -> Result<Seq<u8>, Seq<char>> {
    match (record.response_nonce, record.response_ciphertext) {
        (None, _) => Err("accepted Stripe effect has no receipt nonce"@),
        (Some(_), None) => Err("accepted Stripe effect has no encrypted receipt"@),
        (Some(nonce), Some(ciphertext)) => opening(
            key,
            nonce@,
            ciphertext@,
            encode_utf8(record.effect_id@),
        ),
    }
}

/// Opens the receipt of a record, which is bound to the identifier of its effect.
pub fn decrypt_receipt(cipher: &ReceiptCipher, record: &EffectRecord) -> (r: Result<
    Vec<u8>,
    RuntimeFailure,
>)
    ensures
        match record_opening(cipher.key(), *record) {
            Ok(plaintext) => r is Ok && r->Ok_0@ == plaintext,
            Err(message) => r is Err && r->Err_0.detail@ == message,
        },
{
    let nonce = match &record.response_nonce {
        Some(nonce) => nonce,
        None => return Err(failure("accepted Stripe effect has no receipt nonce".to_owned())),
    };
    let ciphertext = match &record.response_ciphertext {
        Some(ciphertext) => ciphertext,
        None => return Err(failure("accepted Stripe effect has no encrypted receipt".to_owned())),
    };
    cipher.decrypt(nonce.as_slice(), ciphertext.as_slice(), record.effect_id.as_str().as_bytes())
}

/// A receipt opens under a nonce of twelve bytes and a key of thirty-two, and then to what the
/// cipher opens; each thing that is wrong has a message of its own.
pub proof fn law_openings(key: Seq<u8>, nonce: Seq<u8>, ciphertext: Seq<u8>, aad: Seq<u8>)
    ensures
        nonce.len() == 12 && key.len() == 32 && opened_bytes(key, nonce, ciphertext, aad) is Some
            ==> opening(key, nonce, ciphertext, aad) == Ok::<Seq<u8>, Seq<char>>(
            opened_bytes(key, nonce, ciphertext, aad)->0,
        ),
        nonce.len() != 12 ==> opening(key, nonce, ciphertext, aad) == Err::<Seq<u8>, Seq<char>>(
            "Stripe receipt nonce is invalid"@,
        ),
        nonce.len() == 12 && key.len() != 32 ==> opening(key, nonce, ciphertext, aad) == Err::<
            Seq<u8>,
            Seq<char>,
        >("invalid Stripe receipt encryption key"@),
        nonce.len() == 12 && key.len() == 32 && opened_bytes(key, nonce, ciphertext, aad) is None
            ==> opening(key, nonce, ciphertext, aad) == Err::<Seq<u8>, Seq<char>>(
            "Stripe receipt decryption failed"@,
        ),
{
}

/// The stored receipt of an effect opens for that effect's own identifier, and for nothing that is
/// not stored.
pub proof fn law_stored_receipts_open_for_their_effect(key: Seq<u8>, record: EffectRecord)
    ensures
        record.response_nonce is None ==> record_opening(key, record) == Err::<Seq<u8>, Seq<char>>(
            "accepted Stripe effect has no receipt nonce"@,
        ),
        record.response_nonce is Some && record.response_ciphertext is None ==> record_opening(
            key,
            record,
        ) == Err::<Seq<u8>, Seq<char>>("accepted Stripe effect has no encrypted receipt"@),
        record.response_nonce is Some && record.response_ciphertext is Some
            && record.response_nonce->0@.len() == 12 && key.len() == 32 && opened_bytes(
            key,
            record.response_nonce->0@,
            record.response_ciphertext->0@,
            encode_utf8(record.effect_id@),
        ) is Some ==> record_opening(key, record) == Ok::<Seq<u8>, Seq<char>>(
            opened_bytes(
                key,
                record.response_nonce->0@,
                record.response_ciphertext->0@,
                encode_utf8(record.effect_id@),
            )->0,
        ),
{
}

/// Sealing under a key of thirty-two bytes is refused only for what is too long to seal, and under
/// any other key always.
pub proof fn law_sealing_is_refused(key: Seq<u8>, plaintext: Seq<u8>, aad: Seq<u8>)
    ensures
        seal_error(key, plaintext, aad) is None == (key.len() == 32 && plaintext.len()
            <= seal_limit() && aad.len() <= seal_limit()),
        key.len() != 32 ==> seal_error(key, plaintext, aad) == Some(
            "invalid Stripe receipt encryption key"@,
        ),
        key.len() == 32 && seal_error(key, plaintext, aad) is Some ==> seal_error(
            key,
            plaintext,
            aad,
        ) == Some("Stripe receipt encryption failed"@),
{
}

} // verus!
