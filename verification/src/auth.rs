//! Request authentication. A request names its client by an API key and
//! carries a timestamp and the HMAC-SHA256 signature, under the client's
//! secret, of the canonical message made of its parts.

use vstd::prelude::*;
use vstd::utf8::*;

use crate::api_key::ApiKey;
use crate::client::encrypt::EncryptedCredentials;
use crate::client::{hmac_sha256, Credentials};
use crate::codec::standard_bytes;
use crate::decimal::{decimal_text, parse_u64, parsed_u64, to_decimal};
use crate::encrypt::master_key::MasterKey;
use crate::encrypt::utf8_text;
use crate::error::{DecodeError, Error};
use crate::ident::uuid_parsed;
use crate::secret::mask::Masked;

verus! {

/// The header that carries the API key.
pub const API_KEY_HEADER: &'static str = "x-api-key";

/// The header that carries the signature.
pub const SIGNATURE_HEADER: &'static str = "x-signature";

/// The header that carries the timestamp.
pub const TIMESTAMP_HEADER: &'static str = "x-timestamp";

/// Why a request was not admitted.
#[derive(Debug)]
pub enum AuthError {
    /// The timestamp header is missing or no unsigned 64-bit number.
    Timestamp,
    /// The API key header is missing or no UUID.
    ApiKey,
    /// The signature header is missing.
    Signature,
    /// The body of the request could not be read.
    Body,
    /// No client has the API key.
    UnknownApiKey,
    /// Storage failed while the credentials were looked up.
    Storage,
    /// The stored credentials could not be decrypted.
    Credentials(Error),
    /// The signature is malformed or does not match: the error is
    /// `InvalidSignature` either way.
    Rejected(Error),
}

impl AuthError {
    /// The status of the answer: 500 where storage or decryption failed,
    /// 401 for every other refusal.
    pub open spec fn spec_status(&self) -> u16 {
        match self {
            AuthError::Storage | AuthError::Credentials(_) => 500,
            _ => 401,
        }
    }

    pub fn status(&self) -> (r: u16)
        ensures
            r == self.spec_status(),
    {
        match self {
            AuthError::Storage | AuthError::Credentials(_) => 500,
            AuthError::Timestamp
            | AuthError::ApiKey
            | AuthError::Signature
            | AuthError::Body
            | AuthError::UnknownApiKey
            | AuthError::Rejected(_) => 401,
        }
    }

    pub open spec fn spec_message(&self) -> Seq<char> {
        match self {
            AuthError::Timestamp => "Missing or invalid x-timestamp header"@,
            AuthError::ApiKey => "Missing or invalid x-api-key header"@,
            AuthError::Signature => "Missing or invalid x-signature header"@,
            AuthError::Body => "Failed to extract request body as bytes"@,
            AuthError::UnknownApiKey => "Invalid API key"@,
            AuthError::Storage => "Storage failure"@,
            AuthError::Credentials(_) => "Failed to decrypt credentials"@,
            AuthError::Rejected(_) => "invalid signature"@,
        }
    }

    /// What the log says of the refusal.
    pub fn message(&self) -> (r: &'static str)
        ensures
            r@ == self.spec_message(),
    {
        match self {
            AuthError::Timestamp => "Missing or invalid x-timestamp header",
            AuthError::ApiKey => "Missing or invalid x-api-key header",
            AuthError::Signature => "Missing or invalid x-signature header",
            AuthError::Body => "Failed to extract request body as bytes",
            AuthError::UnknownApiKey => "Invalid API key",
            AuthError::Storage => "Storage failure",
            AuthError::Credentials(_) => "Failed to decrypt credentials",
            AuthError::Rejected(_) => "invalid signature",
        }
    }
}

/// The parts of a request that authentication reads, as the transport
/// hands them over. A header is `None` where it is missing or not text.
#[derive(Debug)]
pub struct RequestParts {
    pub timestamp: Option<String>,
    pub api_key: Option<String>,
    pub signature: Option<String>,
    pub http_method: String,
    pub request_path: String,
    pub request_query: String,
    pub body: Vec<u8>,
}

/// What a request says of itself.
pub struct AuthData {
    pub api_key: Masked<ApiKey>,
    pub signature: String,
    pub timestamp: u64,
    pub http_method: String,
    pub request_path: String,
    pub request_query: String,
    pub request_body: Option<String>,
}

/// What the middleware does with a request.
#[derive(Debug)]
pub enum Admission {
    /// The request goes on to its handler, with its body as it was read.
    Forward,
    /// The request is answered at once.
    Reject { status: u16, body: &'static str },
}

impl AuthData {
    /// The message that a request signs: timestamp, method, path, query and
    /// body, in this order and with nothing between them. A request
    /// without a body of text signs the empty text in its place.
    pub open spec fn canonical(
        timestamp: u64,
        http_method: Seq<char>,
        request_path: Seq<char>,
        request_query: Seq<char>,
        request_body: Option<Seq<char>>,
    ) -> Seq<char> {
        decimal_text(timestamp as nat) + http_method + request_path + request_query + (
        match request_body {
            Some(body) => body,
            None => Seq::empty(),
        })
    }

    /// The canonical message of this request.
    pub open spec fn spec_message(&self) -> Seq<char> {
        Self::canonical(
            self.timestamp,
            self.http_method@,
            self.request_path@,
            self.request_query@,
            match self.request_body {
                Some(body) => Some(body@),
                None => None,
            },
        )
    }

    /// The body of a request as the canonical message takes it: the text
    /// of bytes that are UTF-8, nothing for bytes that are not.
    pub open spec fn body_text(body: Seq<u8>) -> Option<Seq<char>> {
        if valid_utf8(body) {
            Some(decode_utf8(body))
        } else {
            None
        }
    }

    /// Reads the authentication data out of the parts of a request. The
    /// headers are read in the order timestamp, API key, signature, and the
    /// first that is missing or malformed is the refusal.
    pub fn from_request(parts: RequestParts) -> (r: Result<AuthData, AuthError>)
        ensures
            match r {
                Ok(auth) => {
                    &&& parts.timestamp matches Some(t) && parsed_u64(t@) == Some(auth.timestamp)
                    &&& parts.api_key matches Some(k) && uuid_parsed(k@) == Some(auth.api_key@)
                    &&& parts.signature matches Some(s) && auth.signature@ == s@
                    &&& auth.http_method@ == parts.http_method@
                    &&& auth.request_path@ == parts.request_path@
                    &&& auth.request_query@ == parts.request_query@
                    &&& Self::body_text(parts.body@) == (match auth.request_body {
                        Some(body) => Some(body@),
                        None => None,
                    })
                },
                Err(AuthError::Timestamp) => !(parts.timestamp matches Some(t) && parsed_u64(t@) is Some),
                Err(AuthError::ApiKey) => {
                    &&& parts.timestamp matches Some(t) && parsed_u64(t@) is Some
                    &&& !(parts.api_key matches Some(k) && uuid_parsed(k@) is Some)
                },
                Err(AuthError::Signature) => {
                    &&& parts.timestamp matches Some(t) && parsed_u64(t@) is Some
                    &&& parts.api_key matches Some(k) && uuid_parsed(k@) is Some
                    &&& parts.signature is None
                },
                Err(_) => false,
            },
    {
        let timestamp = match &parts.timestamp {
            Some(text) => parse_u64(text.as_str()),
            None => None,
        };
        let api_key = match &parts.api_key {
            Some(text) => ApiKey::parse(text.as_str()),
            None => None,
        };
        Self::from_parsed(
            timestamp,
            api_key,
            parts.signature,
            parts.http_method,
            parts.request_path,
            parts.request_query,
            utf8_text(parts.body),
        )
    }

    /// Puts the authentication data together from what the headers were
    /// read as. The first of timestamp, API key and signature that is not
    /// there is the refusal.
    pub fn from_parsed(
        timestamp: Option<u64>,
        api_key: Option<ApiKey>,
        signature: Option<String>,
        http_method: String,
        request_path: String,
        request_query: String,
        request_body: Option<String>,
    ) -> (r: Result<AuthData, AuthError>)
        ensures
            match r {
                Ok(auth) => {
                    &&& timestamp == Some(auth.timestamp)
                    &&& api_key matches Some(k) && k@ == auth.api_key@
                    &&& signature == Some(auth.signature)
                    &&& auth.http_method == http_method
                    &&& auth.request_path == request_path
                    &&& auth.request_query == request_query
                    &&& auth.request_body == request_body
                },
                Err(AuthError::Timestamp) => timestamp is None,
                Err(AuthError::ApiKey) => timestamp is Some && api_key is None,
                Err(AuthError::Signature) => timestamp is Some && api_key is Some && signature is None,
                Err(_) => false,
            },
    {
        let timestamp = match timestamp {
            Some(t) => t,
            None => { return Err(AuthError::Timestamp); },
        };
        let api_key = match api_key {
            Some(k) => Masked::new(k),
            None => { return Err(AuthError::ApiKey); },
        };
        let signature = match signature {
            Some(s) => s,
            None => { return Err(AuthError::Signature); },
        };
        Ok(
            AuthData {
                api_key,
                signature,
                timestamp,
                http_method,
                request_path,
                request_query,
                request_body,
            },
        )
    }

    /// Writes the canonical message of this request.
    pub fn message(&self) -> (r: String)
        ensures
            r@ == self.spec_message(),
    {
        let mut text = to_decimal(self.timestamp);
        text.append(self.http_method.as_str());
        text.append(self.request_path.as_str());
        text.append(self.request_query.as_str());
        match &self.request_body {
            Some(body) => {
                text.append(body.as_str());
            },
            None => {
                assert(text@ + Seq::<char>::empty() =~= text@);
            },
        }
        text
    }

    /// What checking a request against decrypted credentials gives.
    pub open spec fn checked(&self, secret: Seq<char>) -> Result<(), Error> {
        Credentials::authenticated(secret, self.spec_message(), self.signature@)
    }

    /// What authentication gives for a request, given what storage holds
    /// under its API key: `UnknownApiKey` where it holds nothing,
    /// `Credentials` where what it holds does not decrypt, `Rejected` where
    /// the signature is malformed or is not that of the canonical message.
    pub open spec fn authenticated(
        &self,
        found: Option<EncryptedCredentials>,
        master_key: Seq<u8>,
    ) -> Result<(), AuthError> {
        match found {
            None => Err(AuthError::UnknownApiKey),
            Some(stored) => match stored.decrypted(master_key) {
                Err(e) => Err(AuthError::Credentials(e)),
                Ok(secret) => match self.checked(secret) {
                    Err(e) => Err(AuthError::Rejected(e)),
                    Ok(()) => Ok(()),
                },
            },
        }
    }

    /// A request is authenticated only where storage holds credentials
    /// under its API key, these decrypt under the master key, and the
    /// signature decodes to the HMAC-SHA256 tag of the canonical message
    /// under the decrypted secret.
    pub proof fn lemma_authenticated(&self, found: Option<EncryptedCredentials>, master_key: Seq<u8>)
        ensures
            self.authenticated(found, master_key) is Ok <==> {
                &&& found matches Some(stored)
                &&& stored.decrypted(master_key) matches Ok(secret)
                &&& standard_bytes(encode_utf8(self.signature@)) == Ok::<Seq<u8>, DecodeError>(
                    hmac_sha256(encode_utf8(secret), encode_utf8(self.spec_message())),
                )
            },
    {
    }

    /// Authenticates the request. `found` is what storage holds under the
    /// API key of the request.
    pub fn check_authentication(&self, found: Option<EncryptedCredentials>, master_key: &MasterKey) -> (r:
        Result<(), AuthError>)
        ensures
            r == self.authenticated(found, master_key@),
            r matches Err(AuthError::Rejected(e)) ==> e == Error::InvalidSignature,
    {
        let stored = match found {
            Some(stored) => stored,
            None => { return Err(AuthError::UnknownApiKey); },
        };
        let credentials = match stored.decrypt(master_key) {
            Ok(credentials) => credentials,
            Err(e) => { return Err(AuthError::Credentials(e)); },
        };
        let message = self.message();
        match credentials.check_authentication(message.as_str(), self.signature.as_str()) {
            Ok(()) => Ok(()),
            Err(e) => Err(AuthError::Rejected(e)),
        }
    }
}

impl Admission {
    /// What the middleware does, given whether the service's context is
    /// there and what authentication gave: without context the answer is
    /// 500; a refusal is answered with its status; an authenticated request
    /// goes on.
    pub open spec fn decided(context: bool, outcome: Result<(), AuthError>) -> Admission {
        if !context {
            Admission::Reject { status: 500, body: "No context found" }
        } else {
            match outcome {
                Ok(()) => Admission::Forward,
                Err(e) => if e.spec_status() == 401 {
                    Admission::Reject { status: 401, body: "Unauthorized" }
                } else {
                    Admission::Reject { status: 500, body: "Internal Server Error" }
                },
            }
        }
    }

    pub fn decide(context: bool, outcome: &Result<(), AuthError>) -> (r: Admission)
        ensures
            r == Self::decided(context, *outcome),
            r is Forward <==> context && outcome is Ok,
    {
        if !context {
            return Admission::Reject { status: 500, body: "No context found" };
        }
        match outcome {
            Ok(()) => Admission::Forward,
            Err(e) => if e.status() == 401 {
                Admission::Reject { status: 401, body: "Unauthorized" }
            } else {
                Admission::Reject { status: 500, body: "Internal Server Error" }
            },
        }
    }
}

} // verus!
