//! The mock API: a data record synthesised from an identifier, and a client
//! whose fetch always succeeds.

use vstd::prelude::*;
use vstd::string::StringExecFns;

verus! {

/// The record that a fetch produces.
#[derive(Debug)]
pub struct ApiData {
    /// The identifier that was asked for.
    pub id: String,
    /// The name derived from the identifier.
    pub name: String,
}

/// An `ApiData` as a pair of character sequences.
pub struct ApiDataView {
    pub id: Seq<char>,
    pub name: Seq<char>,
}

impl View for ApiData {
    type V = ApiDataView;

    open spec fn view(&self) -> ApiDataView {
        ApiDataView { id: self.id@, name: self.name@ }
    }
}

impl Clone for ApiData {
    fn clone(&self) -> (copy: Self)
        ensures
            copy@ == self@,
    {
        ApiData { id: self.id.clone(), name: self.name.clone() }
    }
}

/// The name that belongs to an identifier: the words "Name for " and the
/// identifier behind them.
pub open spec fn name_for(id: Seq<char>) -> Seq<char> {
    "Name for "@ + id
}

/// The record that the mock backend holds for an identifier.
pub open spec fn api_data_for(id: Seq<char>) -> ApiDataView {
    ApiDataView { id: id, name: name_for(id) }
}

/// Produces the record for `fetch_id`. Never fails.
pub fn get_api_data(fetch_id: String) -> (data: ApiData)
    ensures
        data@ == api_data_for(fetch_id@),
{
    let name = String::from_str("Name for ").concat(fetch_id.as_str());
    ApiData { id: fetch_id, name }
}

/// What a client may report in place of a record.
#[derive(Clone, Copy, Debug, PartialEq, Eq, Structural)]
pub enum ClientError {
    /// No record exists for the identifier.
    NotFound,
    /// The backend failed.
    InternalError,
}

/// A client of the mock backend.
#[derive(Clone, Copy, Debug)]
pub struct Client;

impl Default for Client {
    fn default() -> (client: Self)
        ensures
            client == Client,
    {
        Client::new()
    }
}

impl Client {
    /// Makes a client.
    pub fn new() -> (client: Self)
        ensures
            client == Client,
    {
        Client
    }

    /// Fetches the record for `id`. The mock backend holds a record for
    /// every identifier, so the result is always `Ok`.
    pub fn fetch_data(&self, id: String) -> (result: Result<ApiData, ClientError>)
        ensures
            result is Ok,
            result->Ok_0@ == api_data_for(id@),
    {
        Ok(get_api_data(id))
    }
}

} // verus!
