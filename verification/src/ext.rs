//! The synchronous client adapter: request construction and response
//! classification for ping, read and write operations.

use vstd::prelude::*;

use crate::Error;
use crate::InfluxDBConnectionInfo;

verus! {

/// A client handle: derived from the connection descriptor, stateless
/// otherwise (each operation opens its own HTTP request).
#[derive(Debug)]
pub struct SyncClient {
    pub info: InfluxDBConnectionInfo,
}

impl SyncClient {
    pub fn new(info: InfluxDBConnectionInfo) -> (r: Self)
        ensures
            r.info == info,
    {
        SyncClient { info }
    }
}

/// A query, built by the caller: either a read (a query-language text) or a
/// write (a line-protocol body with its timestamp precision).
#[derive(Debug, PartialEq)]
pub enum Query {
    Read { text: String },
    Write { body: String, precision: String },
}

/// The HTTP method the adapter selects for a request.
#[derive(Clone, Copy, Debug, PartialEq, Eq, Structural)]
pub enum Method {
    Get,
    Post,
}

/// One fully prepared HTTP request: everything the transport needs for the
/// single round trip the adapter performs per call.
#[derive(Debug, PartialEq)]
pub struct HttpRequest {
    pub method: Method,
    pub url: String,
    pub body: Option<String>,
}

/// `needle` occurs in `hay` starting at position `i`.
pub open spec fn has_substring_at(hay: Seq<char>, needle: Seq<char>, i: int) -> bool {
    0 <= i && i + needle.len() <= hay.len() && hay.subrange(i, i + needle.len()) == needle
}

/// `needle` occurs somewhere in `hay` (the naive, case-sensitive match the
/// adapter uses both for keyword detection and for the error marker).
pub open spec fn has_substring(hay: Seq<char>, needle: Seq<char>) -> bool {
    exists|i: int| has_substring_at(hay, needle, i)
}

fn matches_at(hay: &str, needle: &str, i: usize, hlen: usize, nlen: usize) -> (r: bool)
    requires
        hlen == hay@.len(),
        nlen == needle@.len(),
        i + nlen <= hlen,
    ensures
        r == has_substring_at(hay@, needle@, i as int),
{
    let mut k: usize = 0;
    while k < nlen
        invariant
            0 <= k <= nlen,
            hlen == hay@.len(),
            nlen == needle@.len(),
            i + nlen <= hlen,
            forall|t: int| 0 <= t < k ==> hay@[i + t] == needle@[t],
        decreases nlen - k,
    {
        if hay.get_char(i + k) != needle.get_char(k) {
            assert(hay@.subrange(i as int, i + nlen as int)[k as int] != needle@[k as int]);
            return false;
        }
        k += 1;
    }
    assert(hay@.subrange(i as int, i + nlen as int) =~= needle@);
    true
}

/// Whether `hay` contains `needle`, by a plain character scan.
pub fn contains_substring(hay: &str, needle: &str) -> (r: bool)
    ensures
        r == has_substring(hay@, needle@),
{
    let hlen = hay.unicode_len();
    let nlen = needle.unicode_len();
    if nlen == 0 {
        assert(hay@.subrange(0, 0) =~= needle@);
        assert(has_substring_at(hay@, needle@, 0));
        return true;
    }
    if nlen > hlen {
        assert(forall|j: int| !has_substring_at(hay@, needle@, j));
        return false;
    }
    let mut i: usize = 0;
    while i <= hlen - nlen
        invariant
            1 <= nlen <= hlen,
            hlen == hay@.len(),
            nlen == needle@.len(),
            i <= hlen - nlen + 1,
            forall|j: int| 0 <= j < i ==> !has_substring_at(hay@, needle@, j),
        decreases hlen - nlen - i + 1,
    {
        if matches_at(hay, needle, i, hlen, nlen) {
            return true;
        }
        i += 1;
    }
    assert forall|j: int| !has_substring_at(hay@, needle@, j) by {
        if 0 <= j && j + needle@.len() <= hay@.len() {
            assert(j < i);
        }
    }
    false
}

/// The final URL that results from parsing `base` and appending `params`,
/// form-url-encoded, to its query string; `None` when `base` is malformed.
pub uninterp spec fn encoded_url(base: Seq<char>, params: Seq<(Seq<char>, Seq<char>)>) -> Option<
    Seq<char>,
>;

/// Relies on url::Url::parse_with_params: it parses `base` and appends each
/// pair of `params` to the URL's query string, form-url-encoded.  The result
/// is a function of the arguments alone, and construction fails exactly when
/// `base` is not a well-formed URL.
#[verifier::external_body]
fn build_url(base: &str, params: &Vec<(String, String)>) -> (r: Result<String, String>)
    ensures
        r is Ok <==> encoded_url(base@, params.deep_view()) is Some,
        r is Ok ==> r.unwrap()@ == encoded_url(base@, params.deep_view()).unwrap(),
{
    match url::Url::parse_with_params(base, params) {
        Ok(u) => Ok(String::from(u)),
        Err(e) => Err(e.to_string()),
    }
}

/// The method the adapter selects: reads whose text contains `SELECT` or
/// `SHOW` go over GET, every other request over POST.
pub open spec fn spec_method(q: Query) -> Method {
    match q {
        Query::Read { text } => if has_substring(text@, "SELECT"@) || has_substring(
            text@,
            "SHOW"@,
        ) {
            Method::Get
        } else {
            Method::Post
        },
        Query::Write { .. } => Method::Post,
    }
}

impl SyncClient {
    /// The endpoint a query is sent to: `{base}/query` for reads,
    /// `{base}/write` for writes.
    pub open spec fn spec_endpoint(self, q: Query) -> Seq<char> {
        match q {
            Query::Read { .. } => self.info.url@ + "/query"@,
            Query::Write { .. } => self.info.url@ + "/write"@,
        }
    }

    /// The parameters attached to every request: the database name, and the
    /// credentials when they are configured.
    pub open spec fn spec_base_params(self) -> Seq<(Seq<char>, Seq<char>)> {
        match self.info.credentials {
            Some(c) => seq![("db"@, self.info.database@), ("u"@, c.username@), ("p"@, c.password@)],
            None => seq![("db"@, self.info.database@)],
        }
    }

    /// The full parameter list of a query request: the base parameters,
    /// then the query text (reads) or the timestamp precision (writes).
    pub open spec fn spec_query_params(self, q: Query) -> Seq<(Seq<char>, Seq<char>)> {
        match q {
            Query::Read { text } => self.spec_base_params() + seq![("q"@, text@)],
            Query::Write { body: _, precision } => self.spec_base_params() + seq![
                ("precision"@, precision@),
            ],
        }
    }

    fn query_params(&self, q: &Query) -> (r: Vec<(String, String)>)
        ensures
            r.deep_view() == self.spec_query_params(*q),
    {
        let mut params: Vec<(String, String)> = Vec::new();
        params.push((String::from_str("db"), self.info.database.clone()));
        match &self.info.credentials {
            Some(c) => {
                params.push((String::from_str("u"), c.username.clone()));
                params.push((String::from_str("p"), c.password.clone()));
            },
            None => {},
        }
        match q {
            Query::Read { text } => params.push((String::from_str("q"), text.clone())),
            Query::Write { body: _, precision } => params.push(
                (String::from_str("precision"), precision.clone()),
            ),
        }
        assert(params.deep_view() =~= self.spec_query_params(*q));
        params
    }

    /// Build the one HTTP request that `query` would send: endpoint by query
    /// kind, parameters for database, credentials and the query itself,
    /// method by the keyword heuristic, and the line-protocol body for
    /// writes.  Fails exactly when the URL cannot be constructed.
    pub fn prepare_query(&self, q: &Query) -> (r: Result<HttpRequest, Error>)
        ensures
            r is Ok <==> encoded_url(self.spec_endpoint(*q), self.spec_query_params(*q)) is Some,
            r is Ok ==> r.unwrap().url@ == encoded_url(
                self.spec_endpoint(*q),
                self.spec_query_params(*q),
            ).unwrap(),
            r is Ok ==> r.unwrap().method == spec_method(*q),
            r is Ok ==> (match *q {
                Query::Read { .. } => r.unwrap().body is None,
                Query::Write { body, .. } => r.unwrap().body is Some && r.unwrap().body.unwrap()@
                    == body@,
            }),
            r is Err ==> r.unwrap_err() matches Error::UrlConstructionError { .. },
    {
        let params = self.query_params(q);
        let mut endpoint = self.info.url.clone();
        match q {
            Query::Read { .. } => endpoint.append("/query"),
            Query::Write { .. } => endpoint.append("/write"),
        }
        match build_url(endpoint.as_str(), &params) {
            Ok(u) => {
                let method = match q {
                    Query::Read { text } => {
                        if contains_substring(text.as_str(), "SELECT") || contains_substring(
                            text.as_str(),
                            "SHOW",
                        ) {
                            Method::Get
                        } else {
                            Method::Post
                        }
                    },
                    Query::Write { .. } => Method::Post,
                };
                let body = match q {
                    Query::Read { .. } => None,
                    Query::Write { body, .. } => Some(body.clone()),
                };
                Ok(HttpRequest { method, url: u, body })
            },
            Err(e) => Err(Error::UrlConstructionError { error: e }),
        }
    }

    /// The liveness endpoint: `{base}/ping`.
    pub fn ping_url(&self) -> (r: String)
        ensures
            r@ == self.info.url@ + "/ping"@,
    {
        let mut u = self.info.url.clone();
        u.append("/ping");
        u
    }
}

/// What a ping outcome must look like: with both liveness headers present
/// the call succeeds with exactly that `(build, version)` pair; a response
/// without them is a protocol error, never a crash.
pub open spec fn ping_result_spec(
    build: Option<String>,
    version: Option<String>,
    r: Result<(String, String), Error>,
) -> bool {
    &&& (build is Some && version is Some) <==> r is Ok
    &&& (build is Some && version is Some) ==> r == Ok::<(String, String), Error>(
        (build.unwrap(), version.unwrap()),
    )
    &&& r is Err ==> (r.unwrap_err() matches Error::ProtocolError { error } && error@
        == "ping response is missing the X-Influxdb-Build or X-Influxdb-Version header"@)
}

impl SyncClient {
    /// Interpret the two liveness headers of a ping response.
    pub fn ping_result(build: Option<String>, version: Option<String>) -> (r: Result<
        (String, String),
        Error,
    >)
        ensures
            ping_result_spec(build, version, r),
    {
        match (build, version) {
            (Some(b), Some(v)) => Ok((b, v)),
            _ => Err(
                Error::ProtocolError {
                    error: String::from_str(
                        "ping response is missing the X-Influxdb-Build or X-Influxdb-Version header",
                    ),
                },
            ),
        }
    }
}

/// How a query response is classified: HTTP 401 is an authorization error
/// and 403 an authentication error, whatever the body; otherwise a body that
/// is not text is a deserialization error, a body containing the literal
/// marker `"error"` is a database error carrying the formatted body, and any
/// other body is returned uninterpreted.
pub open spec fn spec_classified(status: u16, body: Option<String>, r: Result<String, Error>) -> bool {
    if status == 401 {
        r == Err::<String, Error>(Error::AuthorizationError)
    } else if status == 403 {
        r == Err::<String, Error>(Error::AuthenticationError)
    } else {
        match body {
            None => r is Err && (r.unwrap_err() matches Error::DeserializationError { error }
                && error@ == "response could not be converted to UTF-8"@),
            Some(s) => if has_substring(s@, "\"error\""@) {
                r is Err && (r.unwrap_err() matches Error::DatabaseError { error } && error@
                    == "influxdb error: \""@ + s@ + "\""@)
            } else {
                r == Ok::<String, Error>(s)
            },
        }
    }
}

impl SyncClient {
    /// Classify the status and body of a query response.
    pub fn classify_response(status: u16, body: Option<String>) -> (r: Result<String, Error>)
        ensures
            spec_classified(status, body, r),
    {
        if status == 401 {
            return Err(Error::AuthorizationError);
        }
        if status == 403 {
            return Err(Error::AuthenticationError);
        }
        match body {
            None => Err(
                Error::DeserializationError {
                    error: String::from_str("response could not be converted to UTF-8"),
                },
            ),
            Some(s) => {
                if contains_substring(s.as_str(), "\"error\"") {
                    let mut msg = String::from_str("influxdb error: \"");
                    msg.append(s.as_str());
                    msg.append("\"");
                    Err(Error::DatabaseError { error: msg })
                } else {
                    Ok(s)
                }
            },
        }
    }
}

/// A descriptor without credentials never attaches a `u` or `p` parameter
/// to a request; a descriptor with credentials attaches both, on every
/// request (`connect` hands the descriptor to the client unchanged, so this
/// holds of every request a pooled connection prepares).
pub proof fn lemma_credentials_in_params(client: SyncClient, q: Query)
    ensures
        client.info.credentials is None ==> forall|i: int|
            0 <= i < client.spec_query_params(q).len() ==> (#[trigger] client.spec_query_params(
                q,
            )[i]).0 != "u"@ && client.spec_query_params(q)[i].0 != "p"@,
        client.info.credentials is Some ==> client.spec_query_params(q).len() == 4
            && client.spec_query_params(q)[1] == (
            "u"@,
            client.info.credentials.unwrap().username@,
        ) && client.spec_query_params(q)[2] == ("p"@, client.info.credentials.unwrap().password@),
{
    reveal_strlit("db");
    reveal_strlit("u");
    reveal_strlit("p");
    reveal_strlit("q");
    reveal_strlit("precision");
    let params = client.spec_query_params(q);
    if client.info.credentials is None {
        assert(params.len() == 2);
        assert(params[0].0 == "db"@);
        assert("db"@.len() == 2 && "u"@.len() == 1 && "p"@.len() == 1);
        assert("q"@[0] == 'q' && "u"@[0] == 'u' && "p"@[0] == 'p');
        assert("precision"@.len() == 9);
        match q {
            Query::Read { .. } => {
                assert(params[1].0 == "q"@);
            },
            Query::Write { .. } => {
                assert(params[1].0 == "precision"@);
            },
        }
    }
}

/// Repeated pings against an unchanged server (the same pair of liveness
/// headers) succeed together and return the identical `(build, version)`
/// pair.
pub proof fn lemma_ping_idempotent(
    build: Option<String>,
    version: Option<String>,
    r1: Result<(String, String), Error>,
    r2: Result<(String, String), Error>,
)
    requires
        ping_result_spec(build, version, r1),
        ping_result_spec(build, version, r2),
    ensures
        r1 is Ok <==> r2 is Ok,
        r1 is Ok ==> r1 == r2,
{
}

} // verus!
