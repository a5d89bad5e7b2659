//! The wallet plane: users are registered, sign messages and are revoked.

use vstd::prelude::*;

use crate::api_key::ApiKey;
use crate::encrypt::master_key::MasterKey;
use crate::error::Error;
use crate::ident::uuid_parsed;
use crate::secret::mask::Masked;
use crate::user::encrypt::EncryptedUser;
use crate::user::{rsa_public_pem, SigningKey, User, UserId};

verus! {

/// What is told of a new user.
pub struct RegisterUserResponse {
    pub user_id: UserId,
    pub pub_key: String,
}

/// A message and its signature.
#[derive(Debug)]
pub struct SignMessageResponse {
    pub message: String,
    pub signature: String,
}

impl Clone for SignMessageResponse {
    fn clone(&self) -> (r: Self)
        ensures
            r == *self,
    {
        SignMessageResponse { message: self.message.clone(), signature: self.signature.clone() }
    }
}

/// Why a request of the wallet plane was not served.
#[derive(Debug, Clone, Copy, PartialEq, Eq, Structural)]
pub enum RouteError {
    /// 401: the API key header is missing or no UUID.
    MissingApiKey,
    /// 500: no key could be generated for the user.
    UserNotCreated,
    /// 500: the public key could not be written.
    PublicKey,
    /// 500: the user could not be encrypted.
    UserNotEncrypted,
    /// 500: storage did not take the user.
    UserNotRegistered,
    /// 500: storage failed while the user was looked up.
    UserNotRead,
    /// 404: no user has the identifier.
    UserNotFound,
    /// 500: the stored user could not be decrypted.
    UserNotDecrypted,
    /// 500: the user's key could not sign.
    NotSigned,
    /// 500: storage failed while the user was deleted.
    UserNotRevoked,
}

impl RouteError {
    pub open spec fn spec_status(&self) -> u16 {
        match self {
            RouteError::MissingApiKey => 401,
            RouteError::UserNotFound => 404,
            _ => 500,
        }
    }

    /// The status of the answer.
    pub fn status(&self) -> (r: u16)
        ensures
            r == self.spec_status(),
    {
        match self {
            RouteError::MissingApiKey => 401,
            RouteError::UserNotFound => 404,
            RouteError::UserNotCreated
            | RouteError::PublicKey
            | RouteError::UserNotEncrypted
            | RouteError::UserNotRegistered
            | RouteError::UserNotRead
            | RouteError::UserNotDecrypted
            | RouteError::NotSigned
            | RouteError::UserNotRevoked => 500,
        }
    }

    pub open spec fn spec_message(&self) -> Seq<char> {
        match self {
            RouteError::MissingApiKey => "Missing or invalid x-api-key header"@,
            RouteError::UserNotCreated => "Failed to create user"@,
            RouteError::PublicKey => "Failed to get public key PEM"@,
            RouteError::UserNotEncrypted => "Failed to encrypt user"@,
            RouteError::UserNotRegistered => "Failed to register user"@,
            RouteError::UserNotRead => "Failed to get user"@,
            RouteError::UserNotFound => "User not found"@,
            RouteError::UserNotDecrypted => "Failed to decrypt user"@,
            RouteError::NotSigned => "Failed to sign message"@,
            RouteError::UserNotRevoked => "Failed to revoke user"@,
        }
    }

    /// The body of the answer.
    pub fn message(&self) -> (r: &'static str)
        ensures
            r@ == self.spec_message(),
    {
        match self {
            RouteError::MissingApiKey => "Missing or invalid x-api-key header",
            RouteError::UserNotCreated => "Failed to create user",
            RouteError::PublicKey => "Failed to get public key PEM",
            RouteError::UserNotEncrypted => "Failed to encrypt user",
            RouteError::UserNotRegistered => "Failed to register user",
            RouteError::UserNotRead => "Failed to get user",
            RouteError::UserNotFound => "User not found",
            RouteError::UserNotDecrypted => "Failed to decrypt user",
            RouteError::NotSigned => "Failed to sign message",
            RouteError::UserNotRevoked => "Failed to revoke user",
        }
    }
}

/// A registration that is ready to be stored: the client's API key, what
/// the client is told, and the user in its stored form.
pub struct Registration {
    pub api_key: Masked<ApiKey>,
    pub response: RegisterUserResponse,
    pub encrypted_user: EncryptedUser,
}

/// What storage found when it was asked for a user.
pub enum UserLookup {
    /// Storage failed.
    Failed,
    /// No user has the identifier.
    Missing,
    Found(EncryptedUser),
}

/// Prepares the registration of a new user for the client that the API key
/// header names: a fresh key, its public key for the answer, and the user
/// in its stored form.
pub fn register_user(api_key: Option<&str>, master_key: &MasterKey) -> (r: Result<Registration, RouteError>)
    ensures
        (r matches Err(e) && e == RouteError::MissingApiKey) <==> !(api_key matches Some(text)
            && uuid_parsed(text@) is Some),
        r matches Err(e) ==> e == RouteError::MissingApiKey || e == RouteError::UserNotCreated || e
            == RouteError::PublicKey || e == RouteError::UserNotEncrypted,
        r matches Ok(made) ==> api_key matches Some(text) && uuid_parsed(text@) == Some(made.api_key@),
        r matches Ok(made) ==> made.encrypted_user.id@ == made.response.user_id@
            && made.response.user_id@ == UserId::of_public_pem(made.response.pub_key@),
        r matches Ok(made) ==> (made.encrypted_user.encrypted_signing_key.decrypted(master_key@) matches Ok(
            key,
        ) && rsa_public_pem(key) == Some(made.response.pub_key@)),
{
    let api_key = match api_key {
        Some(text) => ApiKey::parse(text),
        None => None,
    };
    if api_key.is_none() {
        return Err(RouteError::MissingApiKey);
    }
    register_generated(api_key, SigningKey::generate(), master_key)
}

/// Why a registration is refused, if it is, given what the header was
/// read as and what key generation gave. The refusals come in this order:
/// no API key, no key, no public key, a key that cannot be stored.
pub open spec fn refusal(api_key: Option<ApiKey>, generated: Result<SigningKey, Error>) -> Option<
    RouteError,
> {
    if api_key is None {
        Some(RouteError::MissingApiKey)
    } else {
        match generated {
            Err(_) => Some(RouteError::UserNotCreated),
            Ok(key) => if rsa_public_pem(key@) is None {
                Some(RouteError::PublicKey)
            } else if !key.storable() {
                Some(RouteError::UserNotEncrypted)
            } else {
                None
            },
        }
    }
}

/// Prepares a registration from what the header was read as and what key
/// generation gave. It is refused exactly where `refusal` says so, and
/// with that refusal; else the registration holds the API key, the public
/// key of the generated key and the identifier made of it, and the user
/// in its stored form, which decrypts to the generated key.
pub fn register_generated(
    api_key: Option<ApiKey>,
    generated: Result<SigningKey, Error>,
    master_key: &MasterKey,
) -> (r: Result<Registration, RouteError>)
    ensures
        match r {
            Ok(made) => refusal(api_key, generated) is None,
            Err(e) => refusal(api_key, generated) == Some(e),
        },
        r matches Ok(made) ==> api_key matches Some(k) && k@ == made.api_key@,
        r matches Ok(made) ==> generated matches Ok(key) && rsa_public_pem(key@) == Some(
            made.response.pub_key@,
        ) && made.encrypted_user.encrypted_signing_key.decrypted(master_key@) == Ok::<Seq<char>, Error>(
            key@,
        ),
        r matches Ok(made) ==> made.encrypted_user.id@ == made.response.user_id@
            && made.response.user_id@ == UserId::of_public_pem(made.response.pub_key@),
{
    let api_key = match api_key {
        Some(key) => Masked::new(key),
        None => { return Err(RouteError::MissingApiKey); },
    };
    let signing_key = match generated {
        Ok(key) => key,
        Err(_) => { return Err(RouteError::UserNotCreated); },
    };
    let user = match User::from_key(signing_key) {
        Ok(user) => user,
        Err(_) => { return Err(RouteError::PublicKey); },
    };
    let response = match user.signing_key().public_key_pem() {
        Ok(pub_key) => RegisterUserResponse { user_id: user.id().clone(), pub_key },
        Err(_) => { return Err(RouteError::PublicKey); },
    };
    match user.encrypt(master_key) {
        Ok(encrypted_user) => Ok(Registration { api_key, response, encrypted_user }),
        Err(_) => Err(RouteError::UserNotEncrypted),
    }
}

/// The status of the answer to a registration, given whether storage took
/// the user: 201 where it did.
pub fn register_user_reply(stored: bool) -> (r: Result<u16, RouteError>)
    ensures
        r == (if stored {
            Ok::<u16, RouteError>(201)
        } else {
            Err::<u16, RouteError>(RouteError::UserNotRegistered)
        }),
{
    if stored {
        Ok(201)
    } else {
        Err(RouteError::UserNotRegistered)
    }
}

/// What a stored user makes of a message under a master key: the text of
/// the signature, or why there is none.
pub open spec fn signed(lookup: UserLookup, master_key: Seq<u8>, message: Seq<char>) -> Result<
    Seq<char>,
    RouteError,
> {
    match lookup {
        UserLookup::Failed => Err(RouteError::UserNotRead),
        UserLookup::Missing => Err(RouteError::UserNotFound),
        UserLookup::Found(user) => match user.encrypted_signing_key.decrypted(master_key) {
            Err(_) => Err(RouteError::UserNotDecrypted),
            Ok(key) => match SigningKey::signature_text(key, message) {
                None => Err(RouteError::NotSigned),
                Some(text) => Ok(text),
            },
        },
    }
}

/// Signs a message on behalf of the user that storage found: the stored
/// user is decrypted under the master key, and its key signs.
pub fn sign_message(lookup: UserLookup, master_key: &MasterKey, message: String) -> (r: Result<
    SignMessageResponse,
    RouteError,
>)
    ensures
        match r {
            Ok(told) => told.message@ == message@ && signed(lookup, master_key@, message@) == Ok::<
                Seq<char>,
                RouteError,
            >(told.signature@),
            Err(e) => signed(lookup, master_key@, message@) == Err::<Seq<char>, RouteError>(e),
        },
{
    let encrypted_user = match lookup {
        UserLookup::Failed => { return Err(RouteError::UserNotRead); },
        UserLookup::Missing => { return Err(RouteError::UserNotFound); },
        UserLookup::Found(user) => user,
    };
    let user = match encrypted_user.decrypt(master_key) {
        Ok(user) => user,
        Err(_) => { return Err(RouteError::UserNotDecrypted); },
    };
    match user.signing_key().sign_message(message.as_str()) {
        Ok(signature) => Ok(SignMessageResponse { message, signature }),
        Err(_) => Err(RouteError::NotSigned),
    }
}

/// The status of the answer to a revocation, given whether storage deleted
/// the user: 204 where it did.
pub fn revoke_user(deleted: bool) -> (r: Result<u16, RouteError>)
    ensures
        r == (if deleted {
            Ok::<u16, RouteError>(204)
        } else {
            Err::<u16, RouteError>(RouteError::UserNotRevoked)
        }),
{
    if deleted {
        Ok(204)
    } else {
        Err(RouteError::UserNotRevoked)
    }
}

} // verus!
