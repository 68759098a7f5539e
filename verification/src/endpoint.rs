//! The local endpoint at which the service is reached.

use interprocess::local_socket::{GenericNamespaced, NameType};
use vstd::prelude::*;

verus! {

/// The name of the service in the namespace of local sockets.
pub const SOCKET_NAME: &'static str = "ffmpeg-swresample.socks";

/// The path of the service's socket where local sockets have no namespace.
pub const SOCKET_PATH: &'static str = "/tmp/ffmpeg-swresample.socks";

/// Where the service is reached.
#[derive(Clone, Copy, Debug, PartialEq, Eq, Structural)]
pub enum Endpoint {
    /// Under [`SOCKET_NAME`] in the namespace of local sockets.
    Namespaced,
    /// At the filesystem path [`SOCKET_PATH`].
    FilePath,
}

impl Endpoint {
    /// The name or path of the endpoint.
    pub open spec fn name_spec(self) -> Seq<char> {
        match self {
            Endpoint::Namespaced => SOCKET_NAME@,
            Endpoint::FilePath => SOCKET_PATH@,
        }
    }

    /// The name or path of the endpoint.
    pub fn name(self) -> (name: &'static str)
        ensures
            name@ == self.name_spec(),
    {
        match self {
            Endpoint::Namespaced => SOCKET_NAME,
            Endpoint::FilePath => SOCKET_PATH,
        }
    }
}

/// The endpoint at which a client looks for the service: the namespaced one
/// where the platform has a namespace for local sockets, the path otherwise.
pub open spec fn client_endpoint_for(namespaced_supported: bool) -> Endpoint {
    if namespaced_supported {
        Endpoint::Namespaced
    } else {
        Endpoint::FilePath
    }
}

/// The endpoint that the server binds.
pub fn server_endpoint() -> (endpoint: Endpoint)
    ensures
        endpoint == Endpoint::Namespaced,
{
    Endpoint::Namespaced
}

/// The endpoint at which a client looks for the service, given whether the
/// platform has a namespace for local sockets.
pub fn client_endpoint(namespaced_supported: bool) -> (endpoint: Endpoint)
    ensures
        endpoint == client_endpoint_for(namespaced_supported),
{
    if namespaced_supported {
        Endpoint::Namespaced
    } else {
        Endpoint::FilePath
    }
}

/// Calls `interprocess::local_socket::NameType::is_supported` for
/// `GenericNamespaced`: whether namespaced names can be used where the
/// program runs. That name type is made to be supported on every platform,
/// and its `is_supported` returns `true` without looking at anything; the
/// contract claims that answer.
#[verifier::external_body]
fn namespaced_supported() -> (supported: bool)
    ensures
        supported,
{
    GenericNamespaced::is_supported()
}

/// The endpoint at which a client on this platform looks for the service:
/// what [`client_endpoint`] gives for the answer of the local socket
/// library, which is the endpoint that the server binds.
pub fn local_client_endpoint() -> (endpoint: Endpoint)
    ensures
        endpoint == Endpoint::Namespaced,
        endpoint == client_endpoint_for(true),
{
    client_endpoint(namespaced_supported())
}

} // verus!
