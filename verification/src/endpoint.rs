//! The listening endpoint: a path-addressed stream socket on its way from
//! creation to hand-off.
//!
//! The operating system's calls on the socket are made by the driver; this
//! module keeps the endpoint's lifecycle and computes what the calls are
//! handed: the socket address for the path and the listen backlog.

use nix::errno::Errno;
use nix::sys::socket::{Backlog, UnixAddr};
use vstd::prelude::*;

verus! {

/// `nix::sys::socket::UnixAddr`, the address of a Unix-domain socket. It is
/// carried from where it is formed to the driver that binds with it; nothing
/// is known of what it holds.
#[verifier::external_type_specification]
#[verifier::external_body]
pub struct ExUnixAddr(UnixAddr);

/// `nix::sys::socket::Backlog`, a checked length of the queue of pending
/// connections. It is carried to the driver that listens with it; nothing is
/// known of what it holds.
#[verifier::external_type_specification]
#[verifier::external_body]
pub struct ExBacklog(Backlog);

/// `nix::errno::Errno`, the error of the two calls that form an address and
/// a backlog. Nothing is known of it but its text, which [`describe`] gives.
#[verifier::external_type_specification]
#[verifier::external_body]
pub struct ExErrno(Errno);

/// Pending-connection backlog that the endpoint listens with.
pub const LISTEN_BACKLOG: i32 = 10;

/// Where an endpoint stands in its lifecycle.
#[derive(Clone, Copy, Debug, PartialEq, Eq, Structural)]
pub enum EndpointState {
    /// The socket exists and has no address yet.
    Created,
    /// The socket is bound to its path.
    Bound,
    /// The socket accepts connections.
    Listening,
    /// The descriptor belongs to a security-context session; nothing may be
    /// done with it here any more.
    HandedOff,
}

/// The step of endpoint preparation that a failure belongs to.
#[derive(Clone, Copy, Debug, PartialEq, Eq, Structural)]
pub enum EndpointStage {
    /// Looking for an entry at the socket path.
    Probe,
    /// Removing the stale entry at the socket path.
    Unlink,
    /// Creating the socket.
    Socket,
    /// Forming the socket address from the path.
    Address,
    /// Forming the listen backlog.
    Backlog,
    /// Binding the socket to its address.
    Bind,
    /// Starting to listen.
    Listen,
}

/// What an endpoint is: its descriptor and its place in the lifecycle.
pub struct EndpointModel {
    pub fd: i32,
    pub state: EndpointState,
}

/// A stream socket addressed by a filesystem path. Each transition consumes
/// the endpoint and gives it back in its next state, so an endpoint that was
/// handed off cannot be bound or listened on again.
#[derive(Debug)]
pub struct ListeningEndpoint {
    fd: i32,
    state: EndpointState,
}

impl View for ListeningEndpoint {
    type V = EndpointModel;

    closed spec fn view(&self) -> EndpointModel {
        EndpointModel { fd: self.fd, state: self.state }
    }
}

impl ListeningEndpoint {
    /// The endpoint for the freshly created socket `fd`.
    pub fn created(fd: i32) -> (endpoint: Self)
        ensures
            endpoint@ == (EndpointModel { fd, state: EndpointState::Created }),
    {
        ListeningEndpoint { fd, state: EndpointState::Created }
    }

    /// The endpoint after its socket was bound to the path.
    pub fn bound(self) -> (endpoint: Self)
        requires
            self@.state == EndpointState::Created,
        ensures
            endpoint@ == (EndpointModel { fd: self@.fd, state: EndpointState::Bound }),
    {
        ListeningEndpoint { fd: self.fd, state: EndpointState::Bound }
    }

    /// The endpoint after its socket started to listen.
    pub fn listening(self) -> (endpoint: Self)
        requires
            self@.state == EndpointState::Bound,
        ensures
            endpoint@ == (EndpointModel { fd: self@.fd, state: EndpointState::Listening }),
    {
        ListeningEndpoint { fd: self.fd, state: EndpointState::Listening }
    }

    /// The endpoint after its descriptor was given to a session.
    pub fn hand_off(self) -> (endpoint: Self)
        requires
            self@.state == EndpointState::Listening,
        ensures
            endpoint@ == (EndpointModel { fd: self@.fd, state: EndpointState::HandedOff }),
    {
        ListeningEndpoint { fd: self.fd, state: EndpointState::HandedOff }
    }

    /// The socket's descriptor.
    pub fn fd(&self) -> (fd: i32)
        ensures
            fd == self@.fd,
    {
        self.fd
    }

    /// The endpoint's place in its lifecycle.
    pub fn state(&self) -> (state: EndpointState)
        ensures
            state == self@.state,
    {
        self.state
    }
}

/// `nix::sys::socket::UnixAddr::new` on a byte path. The call refuses a path
/// with a NUL byte in it. Whether it accepts another path depends on the
/// platform's limit on the length of socket paths, so no more is claimed.
#[verifier::external_body]
fn unix_address(path: &[u8]) -> (made: Result<UnixAddr, Errno>)
    ensures
        path@.contains(0u8) ==> made is Err,
{
    UnixAddr::new(path)
}

/// `nix::sys::socket::Backlog::new`. The call refuses every length below -1.
/// The greatest length it accepts is the platform's, so success is claimed
/// for no length.
#[verifier::external_body]
fn backlog_of(length: i32) -> (made: Result<Backlog, Errno>)
    ensures
        length < -1 ==> made is Err,
{
    Backlog::new(length)
}

/// The text that `nix::errno::Errno` displays as. Nothing is claimed of it.
#[verifier::external_body]
fn describe(error: Errno) -> (text: String) {
    format!("{}", error)
}

/// The socket address for `path`, or the reason why the path cannot be one.
/// A path with a NUL byte in it never gives an address.
pub(crate) fn resolve_address(path: &Vec<u8>) -> (resolved: Result<UnixAddr, String>)
    ensures
        path@.contains(0u8) ==> resolved is Err,
{
    match unix_address(path.as_slice()) {
        Ok(address) => Ok(address),
        Err(error) => Err(describe(error)),
    }
}

/// The backlog to listen with, or the reason why the platform refuses
/// `LISTEN_BACKLOG` as one.
pub(crate) fn resolve_backlog() -> (resolved: Result<Backlog, String>) {
    match backlog_of(LISTEN_BACKLOG) {
        Ok(backlog) => Ok(backlog),
        Err(error) => Err(describe(error)),
    }
}

} // verus!
