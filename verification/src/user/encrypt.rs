//! Users and signing keys as they are stored: the private key encrypted.

use vstd::prelude::*;

use crate::encrypt::master_key::MasterKey;
use crate::encrypt::Encrypted;
use crate::error::Error;
use crate::secret::redact::Redacted;
use crate::user::{pkcs8_pem_key, SigningKey, User, UserId};

verus! {

/// A stored signing key: the PEM text of the private key encrypted under a
/// data key, the data key encrypted under the master key.
#[derive(Debug)]
pub struct EncryptedSigningKey {
    pub encrypted_private_key: Encrypted,
    pub encrypted_data_key: Encrypted,
}

impl Clone for EncryptedSigningKey {
    fn clone(&self) -> (r: Self)
        ensures
            r.encrypted_private_key.nonce@ == self.encrypted_private_key.nonce@,
            r.encrypted_private_key.ciphertext@ == self.encrypted_private_key.ciphertext@,
            r.encrypted_data_key.nonce@ == self.encrypted_data_key.nonce@,
            r.encrypted_data_key.ciphertext@ == self.encrypted_data_key.ciphertext@,
    {
        EncryptedSigningKey {
            encrypted_private_key: self.encrypted_private_key.clone(),
            encrypted_data_key: self.encrypted_data_key.clone(),
        }
    }
}

impl vstd::std_specs::cmp::PartialEqSpecImpl for EncryptedSigningKey {
    open spec fn obeys_eq_spec() -> bool {
        true
    }

    open spec fn eq_spec(&self, other: &EncryptedSigningKey) -> bool {
        &&& self.encrypted_private_key.nonce@ == other.encrypted_private_key.nonce@
        &&& self.encrypted_private_key.ciphertext@ == other.encrypted_private_key.ciphertext@
        &&& self.encrypted_data_key.nonce@ == other.encrypted_data_key.nonce@
        &&& self.encrypted_data_key.ciphertext@ == other.encrypted_data_key.ciphertext@
    }
}

impl PartialEq for EncryptedSigningKey {
    fn eq(&self, other: &EncryptedSigningKey) -> (r: bool) {
        self.encrypted_private_key == other.encrypted_private_key && self.encrypted_data_key
            == other.encrypted_data_key
    }
}

impl Eq for EncryptedSigningKey {

}

impl EncryptedSigningKey {
    /// The key that a stored signing key holds under a master key, as its
    /// PEM text: the envelope is opened, and the text in it is read as a
    /// private key, `RsaPkcs8` where it holds none.
    pub open spec fn decrypted(&self, master_key: Seq<u8>) -> Result<Seq<char>, Error> {
        match MasterKey::envelope_opened(master_key, self.encrypted_data_key, self.encrypted_private_key) {
            Err(e) => Err(e),
            Ok(pem) => match pkcs8_pem_key(pem) {
                None => Err(Error::RsaPkcs8),
                Some(key) => Ok(key),
            },
        }
    }

    /// Decrypts a stored signing key under the master key.
    pub fn decrypt(self, master_key: &MasterKey) -> (r: Result<SigningKey, Error>)
        ensures
            match r {
                Ok(key) => self.decrypted(master_key@) == Ok::<Seq<char>, Error>(key@),
                Err(e) => self.decrypted(master_key@) == Err::<Seq<char>, Error>(e),
            },
    {
        let private_pem = Redacted::new(
            master_key.open_envelope(&self.encrypted_data_key, &self.encrypted_private_key)?,
        );
        SigningKey::from_pkcs8_pem(private_pem.expose().as_str())
    }
}

/// A stored user.
#[derive(Debug)]
pub struct EncryptedUser {
    pub id: UserId,
    pub encrypted_signing_key: EncryptedSigningKey,
}

impl Clone for EncryptedUser {
    fn clone(&self) -> (r: Self)
        ensures
            r.id@ == self.id@,
            r.encrypted_signing_key.encrypted_private_key.nonce@
                == self.encrypted_signing_key.encrypted_private_key.nonce@,
            r.encrypted_signing_key.encrypted_private_key.ciphertext@
                == self.encrypted_signing_key.encrypted_private_key.ciphertext@,
            r.encrypted_signing_key.encrypted_data_key.nonce@
                == self.encrypted_signing_key.encrypted_data_key.nonce@,
            r.encrypted_signing_key.encrypted_data_key.ciphertext@
                == self.encrypted_signing_key.encrypted_data_key.ciphertext@,
    {
        EncryptedUser { id: self.id.clone(), encrypted_signing_key: self.encrypted_signing_key.clone() }
    }
}

impl vstd::std_specs::cmp::PartialEqSpecImpl for EncryptedUser {
    open spec fn obeys_eq_spec() -> bool {
        true
    }

    open spec fn eq_spec(&self, other: &EncryptedUser) -> bool {
        &&& self.id@ == other.id@
        &&& self.encrypted_signing_key.encrypted_private_key.nonce@
            == other.encrypted_signing_key.encrypted_private_key.nonce@
        &&& self.encrypted_signing_key.encrypted_private_key.ciphertext@
            == other.encrypted_signing_key.encrypted_private_key.ciphertext@
        &&& self.encrypted_signing_key.encrypted_data_key.nonce@
            == other.encrypted_signing_key.encrypted_data_key.nonce@
        &&& self.encrypted_signing_key.encrypted_data_key.ciphertext@
            == other.encrypted_signing_key.encrypted_data_key.ciphertext@
    }
}

impl PartialEq for EncryptedUser {
    fn eq(&self, other: &EncryptedUser) -> (r: bool) {
        self.id == other.id && self.encrypted_signing_key == other.encrypted_signing_key
    }
}

impl Eq for EncryptedUser {

}

impl EncryptedUser {
    /// Decrypts a stored user under the master key: the identifier as it
    /// is, the key as `EncryptedSigningKey::decrypt` does.
    pub fn decrypt(self, master_key: &MasterKey) -> (r: Result<User, Error>)
        ensures
            match r {
                Ok(user) => self.encrypted_signing_key.decrypted(master_key@) == Ok::<Seq<char>, Error>(
                    user@.signing_key@,
                ) && user@.id == self.id@,
                Err(e) => self.encrypted_signing_key.decrypted(master_key@) == Err::<Seq<char>, Error>(e),
            },
    {
        let signing_key = self.encrypted_signing_key.decrypt(master_key)?;
        Ok(User::from_stored(self.id, signing_key))
    }
}

} // verus!
