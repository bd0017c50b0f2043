//! The backend's address and the write-once registry that publishes it.

use vstd::prelude::*;
use vstd::string::*;
use crate::text::{decimal, u64_to_decimal};

verus! {

/// What a `BackendEndpoint` stands for: a host name and a TCP port.
pub struct EndpointModel {
    pub host: Seq<char>,
    pub port: u16,
}

/// The address at which the backend accepts connections.
#[derive(Clone, Debug, PartialEq, Eq)]
pub struct BackendEndpoint {
    pub host: String,
    pub port: u16,
}

impl View for BackendEndpoint {
    type V = EndpointModel;

    open spec fn view(&self) -> EndpointModel {
        EndpointModel { host: self.host@, port: self.port }
    }
}

/// The host every backend started by this application listens on.
pub open spec fn loopback_host() -> Seq<char> {
    "127.0.0.1"@
}

/// The path requested to find out whether the backend answers.
pub open spec fn health_path() -> Seq<char> {
    "/api/notes"@
}

/// The text `http://<host>:<port>`, the port as a decimal numeral.
pub open spec fn base_url_text(e: EndpointModel) -> Seq<char> {
    "http://"@ + e.host + ":"@ + decimal(e.port as nat)
}

/// The text `http://<host>:<port>/api/notes`.
pub open spec fn health_url_text(e: EndpointModel) -> Seq<char> {
    base_url_text(e) + health_path()
}

impl BackendEndpoint {
    /// An endpoint on the given host and port.
    pub fn new(host: &str, port: u16) -> (endpoint: BackendEndpoint)
        ensures
            endpoint@ == (EndpointModel { host: host@, port }),
    {
        BackendEndpoint { host: String::from_str(host), port }
    }

    /// An endpoint on the loopback interface.
    pub fn loopback(port: u16) -> (endpoint: BackendEndpoint)
        ensures
            endpoint@ == (EndpointModel { host: loopback_host(), port }),
    {
        BackendEndpoint::new("127.0.0.1", port)
    }

    /// A copy of this endpoint.
    pub fn duplicate(&self) -> (copy: BackendEndpoint)
        ensures
            copy@ == self@,
    {
        BackendEndpoint { host: self.host.clone(), port: self.port }
    }

    /// The URL under which the backend is reached.
    pub fn base_url(&self) -> (url: String)
        ensures
            url@ == base_url_text(self@),
    {
        String::from_str("http://").concat(self.host.as_str()).concat(":").concat(
            u64_to_decimal(self.port as u64).as_str(),
        )
    }

    /// The URL that a liveness probe requests.
    pub fn health_url(&self) -> (url: String)
        ensures
            url@ == health_url_text(self@),
    {
        self.base_url().concat("/api/notes")
    }
}

/// Why the registry refused an operation.
#[derive(Clone, Copy, Debug, PartialEq, Eq, Structural)]
pub enum RegistryError {
    /// An endpoint was published before; it stays in place.
    AlreadyPublished,
    /// No endpoint has been published yet.
    NotPublished,
}

/// Holder of the one endpoint of an application run. It starts empty, takes
/// one endpoint, and from then on only hands it out.
#[derive(Debug)]
pub struct EndpointRegistry {
    slot: Option<BackendEndpoint>,
}

/// The registry's content after a request to publish `e`: the first endpoint
/// published stays for good.
pub open spec fn after_publish(state: Option<EndpointModel>, e: EndpointModel) -> Option<
    EndpointModel,
> {
    match state {
        None => Some(e),
        Some(_) => state,
    }
}

/// What a query for the backend's URL yields on a registry with this content.
pub open spec fn url_answer(state: Option<EndpointModel>) -> Result<Seq<char>, RegistryError> {
    match state {
        Some(e) => Ok(base_url_text(e)),
        None => Err(RegistryError::NotPublished),
    }
}

/// The views of an optional URL and of an expected answer agree.
pub open spec fn answer_matches(
    got: Result<String, RegistryError>,
    expected: Result<Seq<char>, RegistryError>,
) -> bool {
    match (got, expected) {
        (Ok(s), Ok(t)) => s@ == t,
        (Err(e), Err(f)) => e == f,
        _ => false,
    }
}

impl View for EndpointRegistry {
    type V = Option<EndpointModel>;

    closed spec fn view(&self) -> Option<EndpointModel> {
        match self.slot {
            Some(e) => Some(e@),
            None => None,
        }
    }
}

impl EndpointRegistry {
    /// A registry that holds nothing yet.
    pub fn new() -> (registry: EndpointRegistry)
        ensures
            registry@ is None,
    {
        EndpointRegistry { slot: None }
    }

    /// Whether an endpoint has been published.
    pub fn is_published(&self) -> (published: bool)
        ensures
            published == (self@ is Some),
    {
        self.slot.is_some()
    }

    /// Stores the endpoint if the registry is empty. A registry that already
    /// holds one keeps it and reports `AlreadyPublished`.
    pub fn publish(&mut self, endpoint: BackendEndpoint) -> (result: Result<(), RegistryError>)
        ensures
            final(self)@ == after_publish(old(self)@, endpoint@),
            old(self)@ is None ==> result is Ok,
            old(self)@ is Some ==> result == Err::<(), RegistryError>(
                RegistryError::AlreadyPublished,
            ),
    {
        if self.slot.is_some() {
            Err(RegistryError::AlreadyPublished)
        } else {
            self.slot = Some(endpoint);
            Ok(())
        }
    }

    /// The published endpoint, if there is one. The registry is not changed.
    pub fn query(&self) -> (found: Option<&BackendEndpoint>)
        ensures
            match found {
                Some(e) => self@ == Some(e@),
                None => self@ is None,
            },
    {
        self.slot.as_ref()
    }

    /// The backend's URL, `http://<host>:<port>`, once an endpoint has been
    /// published; `NotPublished` before that.
    pub fn get_backend_url(&self) -> (answer: Result<String, RegistryError>)
        ensures
            answer_matches(answer, url_answer(self@)),
    {
        match &self.slot {
            Some(e) => Ok(e.base_url()),
            None => Err(RegistryError::NotPublished),
        }
    }
}

/// The first endpoint published is the one every later query is answered
/// with: a registry that holds an endpoint keeps it whatever is published
/// afterwards, and answers with its URL.
pub proof fn law_first_publication_stays(
    state: Option<EndpointModel>,
    first: EndpointModel,
    second: EndpointModel,
)
    ensures
        after_publish(after_publish(state, first), second) == after_publish(state, first),
        url_answer(after_publish(None, first)) == Ok::<Seq<char>, RegistryError>(
            base_url_text(first),
        ),
{
}

} // verus!
