//! The server: the single owner of a transport, and the source of fresh
//! request identifiers.
use std::sync::atomic::{AtomicUsize, Ordering};
use vstd::prelude::*;

use crate::message::{Error, Response};

verus! {

/// A channel over which JSON-RPC responses are delivered.
///
/// Implementations must be safe to call from several threads at once.
pub trait ServerTransport: Send + Sync + 'static {
    /// Sends one response; on success hands back the response that was sent.
    fn send_response(&self, response: Response) -> (r: Result<Response, Error>)
        ensures
            r matches Ok(sent) ==> sent == response,
    ;

    /// Sends a batch of responses as one unit; on success hands back what was
    /// sent, in the order given. A failure concerns the whole batch.
    fn send_batch(&self, responses: &[Response]) -> (r: Result<Vec<Response>, Error>)
        ensures
            r matches Ok(sent) ==> sent@ == responses@,
    ;

    /// The human-readable target of the transport: a URL, a socket path, a
    /// peer. An implementation states in its own contract what it returns.
    fn fmt_target(&self) -> (r: String);
}

/// A JSON-RPC server. It owns its transport for its whole life and keeps a
/// counter from which it draws identifiers for the requests it issues itself.
///
/// Build one with `Server::with_transport` or through a `Builder`.
pub struct Server<T: ServerTransport> {
    transport: T,
    nonce: AtomicUsize,
}

impl<T: ServerTransport> Server<T> {
    /// The transport the server owns.
    pub closed spec fn spec_transport(&self) -> T {
        self.transport
    }

    /// Creates a server over the given transport; the same as building it
    /// through a `Builder` with nothing else configured.
    pub fn with_transport(transport: T) -> (r: Server<T>)
        ensures
            r.spec_transport() == transport,
    {
        Builder::with_transport(transport).build()
    }

    /// Draws a fresh identifier: the counter starts at zero and each call
    /// atomically takes its value and advances it by one, wrapping around on
    /// overflow. Calls from any number of threads never lose an update.
    pub fn next_nonce(&self) -> usize {
        self.nonce.fetch_add(1, Ordering::SeqCst)
    }

    /// Sends one response over the transport. Failures are handed back to the
    /// caller, never retried or swallowed.
    pub fn send_response(&self, response: Response) -> (r: Result<Response, Error>)
        ensures
            call_ensures(T::send_response, (&self.spec_transport(), response), r),
            r matches Ok(sent) ==> sent == response,
    {
        self.transport.send_response(response)
    }

    /// Sends a batch of responses over the transport as one unit. An empty
    /// batch succeeds at once and puts nothing on the transport.
    pub fn send_batch(&self, responses: &[Response]) -> (r: Result<Vec<Response>, Error>)
        ensures
            responses@.len() == 0 ==> r is Ok,
            responses@.len() > 0 ==> call_ensures(T::send_batch, (&self.spec_transport(), responses), r),
            r matches Ok(sent) ==> sent@ == responses@,
    {
        if responses.len() == 0 {
            let sent: Vec<Response> = Vec::new();
            proof {
                assert(sent@ =~= responses@);
            }
            Ok(sent)
        } else {
            self.transport.send_batch(responses)
        }
    }

    /// A human-readable description of the server: its transport's target,
    /// exactly as the transport writes it.
    pub fn describe(&self) -> (r: String)
        ensures
            call_ensures(T::fmt_target, (&self.spec_transport(),), r),
    {
        self.transport.fmt_target()
    }
}

/// Stages the construction of a `Server`. It is consumed by `build`, so a
/// builder can be finalized only once.
pub struct Builder<T: ServerTransport> {
    server: Server<T>,
}

impl<T: ServerTransport> Builder<T> {
    /// The transport the server under construction will own.
    pub closed spec fn spec_transport(&self) -> T {
        self.server.spec_transport()
    }

    /// Begins building a server over the given transport, with a fresh counter.
    pub fn with_transport(transport: T) -> (r: Builder<T>)
        ensures
            r.spec_transport() == transport,
    {
        Builder { server: Server { transport, nonce: AtomicUsize::new(0) } }
    }

    /// Finishes the server.
    pub fn build(self) -> (r: Server<T>)
        ensures
            r.spec_transport() == self.spec_transport(),
    {
        self.server
    }
}

/// A server finished from a builder begun over `transport` describes itself
/// exactly as that transport describes its target.
pub proof fn lemma_built_server_describes_endpoint<T: ServerTransport>(
    transport: T,
    builder: Builder<T>,
    server: Server<T>,
    description: String,
)
    requires
        builder.spec_transport() == transport,
        server.spec_transport() == builder.spec_transport(),
        call_ensures(Server::<T>::describe, (&server,), description),
    ensures
        call_ensures(T::fmt_target, (&transport,), description),
{
}

} // verus!
