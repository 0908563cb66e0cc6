//! Authorization of multiplexed datagram sessions.
use vstd::prelude::*;

use crate::addr::IpAddress;
use crate::error::ConnectionError;

verus! {

/// How the caller proves its identity: an opaque credential class that the
/// forwarding policy only passes along and compares.
#[derive(Clone, Copy, Debug, PartialEq, Eq, Structural)]
pub struct AuthSource {
    pub class: u32,
}

/// A one-shot capability that authorizes one multiplexed datagram session.
///
/// `check_auth` takes the authenticator by value, so one authenticator can
/// never authorize a session twice with different outcomes.
pub trait DatagramMultiplexerAuthenticator: Sized {
    /// Whether this authenticator admits a session with these parameters.
    spec fn admits(
        &self,
        client_ip: IpAddress,
        session_key: Seq<char>,
        source: AuthSource,
        credential: Option<Seq<char>>,
    ) -> bool;

    /// Succeeds exactly when the session is admitted; a refusal is always
    /// reported as authorization-denied.
    fn check_auth(
        self,
        client_ip: IpAddress,
        session_key: &str,
        source: AuthSource,
        credential: Option<&str>,
    ) -> (r: Result<(), ConnectionError>)
        ensures
            r is Ok <==> self.admits(client_ip, session_key@, source, opt_str_view(credential)),
            r is Err ==> r == Err::<(), ConnectionError>(ConnectionError::AuthorizationDenied),
    ;
}

/// The characters of an optional string.
pub open spec fn opt_str_view(s: Option<&str>) -> Option<Seq<char>> {
    match s {
        Some(t) => Some(t@),
        None => None,
    }
}

/// The pass-through policy's authenticator: stateless, it admits every
/// session and consults no one.
#[derive(Debug, PartialEq, Eq, Structural)]
pub struct PassThroughAuthenticator;

impl DatagramMultiplexerAuthenticator for PassThroughAuthenticator {
    open spec fn admits(
        &self,
        client_ip: IpAddress,
        session_key: Seq<char>,
        source: AuthSource,
        credential: Option<Seq<char>>,
    ) -> bool {
        true
    }

    fn check_auth(
        self,
        client_ip: IpAddress,
        session_key: &str,
        source: AuthSource,
        credential: Option<&str>,
    ) -> (r: Result<(), ConnectionError>)
        ensures
            r == Ok::<(), ConnectionError>(()),
    {
        Ok(())
    }
}

} // verus!
