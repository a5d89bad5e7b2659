//! Clients and credentials as they are stored: every secret encrypted.

use vstd::prelude::*;

use crate::api_key::ApiKey;
use crate::client::{Client, ClientId, Credentials};
use crate::encrypt::master_key::MasterKey;
use crate::encrypt::Encrypted;
use crate::error::Error;
use crate::secret::mask::Masked;

verus! {

/// Stored credentials: the secret encrypted under a data key, the data key
/// encrypted under the master key.
pub struct EncryptedCredentials {
    pub api_key: Masked<ApiKey>,
    pub encrypted_secret: Encrypted,
    pub encrypted_data_key: Encrypted,
}

impl vstd::std_specs::cmp::PartialEqSpecImpl for EncryptedCredentials {
    open spec fn obeys_eq_spec() -> bool {
        true
    }

    open spec fn eq_spec(&self, other: &EncryptedCredentials) -> bool {
        &&& self.api_key@ == other.api_key@
        &&& self.encrypted_secret.nonce@ == other.encrypted_secret.nonce@
        &&& self.encrypted_secret.ciphertext@ == other.encrypted_secret.ciphertext@
        &&& self.encrypted_data_key.nonce@ == other.encrypted_data_key.nonce@
        &&& self.encrypted_data_key.ciphertext@ == other.encrypted_data_key.ciphertext@
    }
}

impl PartialEq for EncryptedCredentials {
    fn eq(&self, other: &EncryptedCredentials) -> (r: bool) {
        self.api_key == other.api_key && self.encrypted_secret
            == other.encrypted_secret && self.encrypted_data_key == other.encrypted_data_key
    }
}

impl Eq for EncryptedCredentials {

}

impl EncryptedCredentials {
    /// The secret that stored credentials hold under a master key: what
    /// the envelope of data key and secret opens to.
    pub open spec fn decrypted(&self, master_key: Seq<u8>) -> Result<Seq<char>, Error> {
        MasterKey::envelope_opened(master_key, self.encrypted_data_key, self.encrypted_secret)
    }

    /// Decrypts stored credentials under the master key.
    pub fn decrypt(self, master_key: &MasterKey) -> (r: Result<Credentials, Error>)
        ensures
            match r {
                Ok(c) => self.decrypted(master_key@) == Ok::<Seq<char>, Error>(c@.secret)
                    && c@.api_key == self.api_key@,
                Err(e) => self.decrypted(master_key@) == Err::<Seq<char>, Error>(e),
            },
    {
        let secret = master_key.open_envelope(&self.encrypted_data_key, &self.encrypted_secret)?;
        Ok(Credentials::new(self.api_key.expose().clone(), secret))
    }
}

/// A stored client.
pub struct EncryptedClient {
    pub id: ClientId,
    pub name: String,
    pub credentials: EncryptedCredentials,
}

impl vstd::std_specs::cmp::PartialEqSpecImpl for EncryptedClient {
    open spec fn obeys_eq_spec() -> bool {
        true
    }

    open spec fn eq_spec(&self, other: &EncryptedClient) -> bool {
        &&& self.id@ == other.id@
        &&& self.name@ == other.name@
        &&& self.credentials.api_key@ == other.credentials.api_key@
        &&& self.credentials.encrypted_secret.nonce@ == other.credentials.encrypted_secret.nonce@
        &&& self.credentials.encrypted_secret.ciphertext@
            == other.credentials.encrypted_secret.ciphertext@
        &&& self.credentials.encrypted_data_key.nonce@ == other.credentials.encrypted_data_key.nonce@
        &&& self.credentials.encrypted_data_key.ciphertext@
            == other.credentials.encrypted_data_key.ciphertext@
    }
}

impl PartialEq for EncryptedClient {
    fn eq(&self, other: &EncryptedClient) -> (r: bool) {
        self.id == other.id && self.name == other.name && self.credentials == other.credentials
    }
}

impl Eq for EncryptedClient {

}

impl EncryptedClient {
    /// Decrypts a stored client under the master key: identifier and name
    /// as they are, the credentials as `EncryptedCredentials::decrypt` does.
    pub fn decrypt(self, master_key: &MasterKey) -> (r: Result<Client, Error>)
        ensures
            match r {
                Ok(c) => self.credentials.decrypted(master_key@) == Ok::<Seq<char>, Error>(
                    c@.credentials.secret,
                ) && c@.credentials.api_key == self.credentials.api_key@ && c@.id == self.id@
                    && c@.name == self.name@,
                Err(e) => self.credentials.decrypted(master_key@) == Err::<Seq<char>, Error>(e),
            },
    {
        let credentials = self.credentials.decrypt(master_key)?;
        Ok(Client::from_stored(self.id, self.name, credentials))
    }
}

} // verus!
