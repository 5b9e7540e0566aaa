//! A connection-pool adapter for an InfluxDB-style HTTP interface.
//!
//! The library builds the HTTP requests that the adapter sends (ping,
//! read and write queries) and classifies the HTTP responses into a
//! domain result or a typed error.  The single HTTP round trip itself is
//! left to the caller; everything the adapter decides is specified and
//! verified here.

use vstd::prelude::*;
use vstd::std_specs::convert::FromSpec;

pub mod ext;

use crate::ext::SyncClient;

verus! {

/// The adapter's error taxonomy.  Every error carries the message that the
/// caller would want to see; none is ever swallowed.
#[derive(Debug, PartialEq)]
pub enum Error {
    /// The query object could not be serialized or built.
    InvalidQueryError { error: String },
    /// The base URL or the request parameters were malformed.
    UrlConstructionError { error: String },
    /// A transport-level failure while reaching the server (including ping).
    ProtocolError { error: String },
    /// The response body was not valid text.
    DeserializationError { error: String },
    /// The response body contains an embedded error marker.
    DatabaseError { error: String },
    /// The server answered with HTTP 403.
    AuthenticationError,
    /// The server answered with HTTP 401.
    AuthorizationError,
    /// A transport-level failure while sending a query.
    ConnectionError { error: String },
}

impl Error {
    /// The short human-readable description of each error kind.
    pub open spec fn spec_description(self) -> Seq<char> {
        match self {
            Error::InvalidQueryError { .. } => "query is invalid"@,
            Error::UrlConstructionError { .. } => "failed to build URL"@,
            Error::ProtocolError { .. } => "http protocol error"@,
            Error::DeserializationError { .. } => "http protocol error"@,
            Error::DatabaseError { .. } => "database error"@,
            Error::AuthenticationError => "authentication error"@,
            Error::AuthorizationError => "authorization error"@,
            Error::ConnectionError { .. } => "connection error"@,
        }
    }

    pub fn description(&self) -> (r: &'static str)
        ensures
            r@ == self.spec_description(),
    {
        match self {
            Error::InvalidQueryError { .. } => "query is invalid",
            Error::UrlConstructionError { .. } => "failed to build URL",
            Error::ProtocolError { .. } => "http protocol error",
            Error::DeserializationError { .. } => "http protocol error",
            Error::DatabaseError { .. } => "database error",
            Error::AuthenticationError => "authentication error",
            Error::AuthorizationError => "authorization error",
            Error::ConnectionError { .. } => "connection error",
        }
    }
}

/// A username/password pair attached to every request when configured.
#[derive(Debug, PartialEq)]
pub struct Credentials {
    pub username: String,
    pub password: String,
}

impl Clone for Credentials {
    fn clone(&self) -> (r: Self)
        ensures
            r == *self,
    {
        Credentials { username: self.username.clone(), password: self.password.clone() }
    }
}

/// The connection descriptor: target URL, database name, optional
/// credentials.  Immutable after construction.
#[derive(Debug)]
pub struct InfluxDBConnectionInfo {
    pub url: String,
    pub database: String,
    pub credentials: Option<Credentials>,
}

impl Clone for InfluxDBConnectionInfo {
    fn clone(&self) -> (r: Self)
        ensures
            r == *self,
    {
        InfluxDBConnectionInfo {
            url: self.url.clone(),
            database: self.database.clone(),
            credentials: match &self.credentials {
                Some(c) => Some(c.clone()),
                None => None,
            },
        }
    }
}

/// Connection info without authentication.
pub struct SimpleInfo {
    pub url: String,
    pub database: String,
}

/// Connection info with authentication.
pub struct AuthInfo {
    pub url: String,
    pub database: String,
    pub username: String,
    pub password: String,
}

impl From<SimpleInfo> for InfluxDBConnectionInfo {
    fn from(item: SimpleInfo) -> (r: Self) {
        InfluxDBConnectionInfo { url: item.url, database: item.database, credentials: None }
    }
}

impl vstd::std_specs::convert::FromSpecImpl<SimpleInfo> for InfluxDBConnectionInfo {
    open spec fn obeys_from_spec() -> bool {
        true
    }

    open spec fn from_spec(v: SimpleInfo) -> Self {
        InfluxDBConnectionInfo { url: v.url, database: v.database, credentials: None }
    }
}

impl From<AuthInfo> for InfluxDBConnectionInfo {
    fn from(item: AuthInfo) -> (r: Self) {
        InfluxDBConnectionInfo {
            url: item.url,
            database: item.database,
            credentials: Some(Credentials { username: item.username, password: item.password }),
        }
    }
}

impl vstd::std_specs::convert::FromSpecImpl<AuthInfo> for InfluxDBConnectionInfo {
    open spec fn obeys_from_spec() -> bool {
        true
    }

    open spec fn from_spec(v: AuthInfo) -> Self {
        InfluxDBConnectionInfo {
            url: v.url,
            database: v.database,
            credentials: Some(Credentials { username: v.username, password: v.password }),
        }
    }
}

/// The factory an external pool drives: it turns the descriptor into
/// ready-to-use client handles.
#[derive(Debug)]
pub struct InfluxDBConnectionManager {
    pub info: InfluxDBConnectionInfo,
}

impl InfluxDBConnectionManager {
    pub fn new<T>(params: T) -> (r: InfluxDBConnectionManager) where
        InfluxDBConnectionInfo: From<T>,

        ensures
            InfluxDBConnectionInfo::obeys_from_spec() ==> r.info
                == InfluxDBConnectionInfo::from_spec(params),
    {
        InfluxDBConnectionManager { info: InfluxDBConnectionInfo::from(params) }
    }

    /// Pure construction: always succeeds and hands back a client handle
    /// that carries exactly this descriptor.
    pub fn connect(&self) -> (r: Result<SyncClient, Error>)
        ensures
            r is Ok,
            r.unwrap().info == self.info,
    {
        Ok(SyncClient::new(self.info.clone()))
    }

    /// The validity decision the pool acts on: a ping outcome maps to
    /// `Ok(())` exactly when the ping succeeded, and its error is returned
    /// unchanged.
    pub fn is_valid(outcome: Result<(String, String), Error>) -> (r: Result<(), Error>)
        ensures
            r is Ok <==> outcome is Ok,
            outcome is Err ==> r == Err::<(), Error>(outcome.unwrap_err()),
    {
        match outcome {
            Ok(_) => Ok(()),
            Err(e) => Err(e),
        }
    }

    /// A connection counts as broken exactly when its validity check failed.
    pub fn has_broken(validity: &Result<(), Error>) -> (r: bool)
        ensures
            r <==> validity is Err,
    {
        validity.is_err()
    }
}

} // verus!
