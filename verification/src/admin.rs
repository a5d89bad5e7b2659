//! The admin plane: clients are created and looked up by name.

use vstd::prelude::*;

use crate::api_key::ApiKey;
use crate::client::encrypt::EncryptedClient;
use crate::client::{Client, ClientId};
use crate::encrypt::master_key::MasterKey;
use crate::error::Error;
use crate::ident::hyphenated;
use crate::secret::mask::Masked;

verus! {

/// The body of a request that creates a client.
#[derive(Debug)]
pub struct CreateClientRequest {
    pub name: String,
}

/// The query of a request that looks a client up.
#[derive(Debug)]
pub struct ClientQuery {
    name: String,
}

impl ClientQuery {
    pub closed spec fn spec_name(&self) -> Seq<char> {
        self.name@
    }

    pub fn new(name: String) -> (r: Self)
        ensures
            r.spec_name() == name@,
    {
        ClientQuery { name }
    }

    pub fn name(&self) -> (r: &String)
        ensures
            r@ == self.spec_name(),
    {
        &self.name
    }

    /// The identifier under which the client is looked up: that of the
    /// name.
    pub fn client_id(&self) -> (r: ClientId)
        ensures
            r@ == ClientId::of_name(self.spec_name()),
    {
        ClientId::from(self.name.as_str())
    }
}

/// What is told of a new client, once: the secret is in it.
pub struct CreateClientResponse {
    pub id: String,
    pub name: String,
    pub api_key: String,
    pub secret: String,
}

/// What is told of a client that was looked up.
pub struct GetClientResponse {
    pub name: String,
    pub api_key: Masked<ApiKey>,
}

/// The answer to a request that creates a client.
pub enum CreateClientReply {
    /// 201, with the client and its secret.
    Created(CreateClientResponse),
    /// 500: the client could not be encrypted or stored.
    Failed,
}

/// The answer to a request that looks a client up.
pub enum GetClientReply {
    /// 200, with the name and the masked API key.
    Found(GetClientResponse),
    /// 404: no client has the name.
    NotFound,
    /// 500: storage failed.
    Failed,
}

impl CreateClientReply {
    pub open spec fn spec_status(&self) -> u16 {
        match self {
            CreateClientReply::Created(_) => 201,
            CreateClientReply::Failed => 500,
        }
    }

    pub fn status(&self) -> (r: u16)
        ensures
            r == self.spec_status(),
    {
        match self {
            CreateClientReply::Created(_) => 201,
            CreateClientReply::Failed => 500,
        }
    }
}

impl GetClientReply {
    pub open spec fn spec_status(&self) -> u16 {
        match self {
            GetClientReply::Found(_) => 200,
            GetClientReply::NotFound => 404,
            GetClientReply::Failed => 500,
        }
    }

    pub fn status(&self) -> (r: u16)
        ensures
            r == self.spec_status(),
    {
        match self {
            GetClientReply::Found(_) => 200,
            GetClientReply::NotFound => 404,
            GetClientReply::Failed => 500,
        }
    }
}

/// Makes the client that a request asks for, and its stored form: a new
/// client of the name with fresh credentials, encrypted under the master
/// key.
pub fn create_client(body: &CreateClientRequest, master_key: &MasterKey) -> (r: Result<
    (Client, EncryptedClient),
    Error,
>)
    ensures
        r is Ok,
        r matches Ok(made) ==> made.0@.name == body.name@ && made.0@.id == ClientId::of_name(body.name@),
        r matches Ok(made) ==> made.1.id@ == made.0@.id && made.1.name@ == made.0@.name
            && made.1.credentials.api_key@ == made.0@.credentials.api_key,
        r matches Ok(made) ==> made.1.credentials.decrypted(master_key@) == Ok::<Seq<char>, Error>(
            made.0@.credentials.secret,
        ),
{
    let client = Client::new(body.name.clone());
    let encrypted = client.encrypt(master_key)?;
    Ok((client, encrypted))
}

/// The answer to a request that creates a client, given the client that
/// was made, if any, and whether storage took it.
pub fn create_client_reply(made: Option<&Client>, stored: bool) -> (r: CreateClientReply)
    ensures
        match r {
            CreateClientReply::Created(told) => made matches Some(client) && stored && told.id@
                == hyphenated(client@.id) && told.name@ == client@.name && told.api_key@ == hyphenated(
                client@.credentials.api_key,
            ) && told.secret@ == client@.credentials.secret,
            CreateClientReply::Failed => made is None || !stored,
        },
{
    match made {
        Some(client) => {
            if !stored {
                return CreateClientReply::Failed;
            }
            CreateClientReply::Created(
                CreateClientResponse {
                    id: client.id().to_string(),
                    name: client.name().clone(),
                    api_key: client.credentials().api_key().expose().to_string(),
                    secret: client.credentials().expose_secret().clone(),
                },
            )
        },
        None => CreateClientReply::Failed,
    }
}

/// The answer to a request that looks a client up, given what storage
/// found: `None` where it failed, else the client or nothing.
pub fn get_client(found: Option<Option<EncryptedClient>>) -> (r: GetClientReply)
    ensures
        match r {
            GetClientReply::Found(told) => found matches Some(Some(client)) && told.name@ == client.name@
                && told.api_key@ == client.credentials.api_key@,
            GetClientReply::NotFound => found == Some(None::<EncryptedClient>),
            GetClientReply::Failed => found is None,
        },
{
    match found {
        Some(Some(client)) => GetClientReply::Found(
            GetClientResponse { name: client.name, api_key: client.credentials.api_key },
        ),
        Some(None) => GetClientReply::NotFound,
        None => GetClientReply::Failed,
    }
}

} // verus!
