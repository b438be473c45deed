//! The owner of the database session.

use crate::cache::PreparedCache;
use crate::errors::{err_no_session, ErrorKind, ServerError};
use scylla::prepared_statement::PreparedStatement;
use scylla::Session;
use vstd::prelude::*;

verus! {

#[verifier::external_type_specification]
#[verifier::external_body]
pub struct ExSession(Session);

/// Cluster endpoint used when none is configured.
pub const DEFAULT_URI: &'static str = "127.0.0.1:9042";

/// Number of connections the session keeps to each host.
pub const POOL_SIZE_PER_HOST: usize = 4;

/// Seconds to wait for the session to be built before giving up.
pub const CONNECT_TIMEOUT_SECS: u64 = 5;

/// Seconds to wait for one statement before giving up. Failures are not
/// retried: every one is reported to the caller at once.
pub const STATEMENT_TIMEOUT_SECS: u64 = 10;

/// Storage: the cluster endpoint, once connected the one session that every
/// operation goes through, and the statements prepared on it.
pub struct Storage {
    uri: String,
    session: Option<Session>,
    prepared: PreparedCache,
}

impl Storage {
    pub closed spec fn spec_uri(&self) -> Seq<char> {
        self.uri@
    }

    pub closed spec fn spec_session(&self) -> Option<Session> {
        self.session
    }

    pub closed spec fn spec_prepared(&self) -> Map<Seq<char>, PreparedStatement> {
        self.prepared.spec_map()
    }

    pub open spec fn spec_connected(&self) -> bool {
        self.spec_session() is Some
    }

    /// Creates a storage for the configured endpoint, or for `DEFAULT_URI`
    /// when none is configured. No session is established yet.
    pub fn new(configured: Option<String>) -> (r: Storage)
        ensures
            r.spec_uri() == (match configured {
                Some(u) => u@,
                None => DEFAULT_URI@,
            }),
            !r.spec_connected(),
            r.spec_prepared() == Map::<Seq<char>, PreparedStatement>::empty(),
    {
        let uri = match configured {
            Some(u) => u,
            None => DEFAULT_URI.to_string(),
        };
        Storage { uri, session: None, prepared: PreparedCache::new() }
    }

    /// The cluster endpoint.
    pub fn uri(&self) -> (r: &String)
        ensures
            r@ == self.spec_uri(),
    {
        &self.uri
    }

    /// Whether a session is established.
    pub fn is_connected(&self) -> (r: bool)
        ensures
            r == self.spec_connected(),
    {
        self.session.is_some()
    }

    /// Takes ownership of a freshly built session.
    pub fn attach_session(&mut self, session: Session)
        ensures
            final(self).spec_session() == Some(session),
            final(self).spec_uri() == old(self).spec_uri(),
            final(self).spec_prepared() == old(self).spec_prepared(),
    {
        self.session = Some(session);
    }

    /// The handle prepared for `text`, if one was stored.
    pub fn prepared(&self, text: &String) -> (r: Option<&PreparedStatement>)
        ensures
            r is Some <==> self.spec_prepared().contains_key(text@),
            r matches Some(p) ==> *p == self.spec_prepared()[text@],
    {
        self.prepared.get(text)
    }

    /// Stores the handle prepared for `text`; a handle stored earlier for the
    /// same text is kept.
    pub fn remember_prepared(&mut self, text: String, p: PreparedStatement)
        ensures
            final(self).spec_uri() == old(self).spec_uri(),
            final(self).spec_session() == old(self).spec_session(),
            old(self).spec_prepared().contains_key(text@) ==> final(self).spec_prepared() == old(
                self,
            ).spec_prepared(),
            !old(self).spec_prepared().contains_key(text@) ==> final(self).spec_prepared() == old(
                self,
            ).spec_prepared().insert(text@, p),
    {
        self.prepared.insert(text, p);
    }

    /// The session to issue an operation through. Without an established
    /// session this fails with a no-session error, before anything is sent.
    pub fn session(&self) -> (r: Result<&Session, ServerError>)
        ensures
            r is Ok <==> self.spec_connected(),
            r matches Ok(s) ==> self.spec_session() == Some(*s),
            r matches Err(e) ==> e.spec_kind() == ErrorKind::NoSession,
    {
        match &self.session {
            Some(s) => Ok(s),
            None => Err(err_no_session()),
        }
    }
}

} // verus!
