use vstd::prelude::*;

use crate::error::Error;
use crate::text::dec_str;
use crate::text::format_u64;

verus! {

/// The last moment the RFC 3339 formatter below accepts:
/// 9999-12-31T23:59:59 UTC, in seconds since the epoch start.
pub const MAX_TIMESTAMP_SECS: i64 = 253402300799;

/// A moment in time, held as whole seconds since the epoch start
/// (1970-01-01T00:00:00 UTC), and kept within the range the RFC 3339
/// text form can carry (up to the end of year 9999).
#[derive(Debug, Clone, Copy, PartialEq, Eq, Structural)]
pub struct Timestamp {
    secs: i64,
}

/// The RFC 3339 text of a moment given as seconds since the epoch
/// start, in UTC.
pub uninterp spec fn rfc3339_of(secs: int) -> Seq<char>;

/// Relies on time's `OffsetDateTime::from_unix_timestamp` and its
/// RFC 3339 formatting: the text depends on the epoch second alone,
/// and both steps succeed for every moment up to the end of year 9999.
#[verifier::external_body]
fn format_rfc3339(secs: i64) -> (r: String)
    requires
        0 <= secs <= MAX_TIMESTAMP_SECS,
    ensures
        r@ == rfc3339_of(secs as int),
{
    let t = time::OffsetDateTime::from_unix_timestamp(secs).unwrap();
    t.format(&time::format_description::well_known::Rfc3339).unwrap()
}

impl Timestamp {
    /// Every timestamp stays within what the RFC 3339 formatter accepts.
    #[verifier::type_invariant]
    pub closed spec fn inv(self) -> bool {
        0 <= self.secs <= MAX_TIMESTAMP_SECS
    }

    /// The moment, as seconds since the epoch start.
    pub closed spec fn spec_secs(self) -> int {
        self.secs as int
    }

    /// The moment a count of seconds since the epoch start names, if it
    /// lies in the supported range (the epoch start up to the end of
    /// year 9999).
    pub fn from_secs(secs: i64) -> (r: Option<Timestamp>)
        ensures
            r is Some <==> 0 <= secs <= MAX_TIMESTAMP_SECS,
            r matches Some(t) ==> t.spec_secs() == secs,
    {
        if 0 <= secs && secs <= MAX_TIMESTAMP_SECS {
            Some(Timestamp { secs })
        } else {
            None
        }
    }

    /// The epoch start itself: the earliest representable moment, which
    /// as a lower bound on record times means "no lower bound".
    pub fn epoch() -> (r: Timestamp)
        ensures
            r.spec_secs() == 0,
    {
        Timestamp { secs: 0 }
    }

    /// The seconds since the epoch start.
    pub fn secs(&self) -> (r: i64)
        ensures
            r == self.spec_secs(),
    {
        self.secs
    }
}

/// One HTTP GET the transport collaborator is asked to perform: the
/// full request URL, and the API key to attach as the `X-OTX-API-KEY`
/// header.
#[derive(Debug, Clone, PartialEq)]
pub struct Request {
    /// The full URL to fetch.
    pub url: String,
    /// The API key for the authentication header.
    pub apikey: String,
}

/// A client of the exchange. It holds the request configuration; the
/// transport itself (performing the GETs) is the caller's collaborator.
///
/// Configure it through the builder calls, then build requests with
/// `threats_request` / `threat_request`, decode the answers with
/// `threats_response` / `threat_response`, and walk pages with
/// `each_feed`.
#[derive(Debug, Clone, PartialEq)]
pub struct Client {
    /// The API key; it must be set before any request can be built.
    pub apikey: Option<String>,
    /// How many records each page is limited to.
    pub limit: usize,
    /// Only records modified at or after this moment are requested.
    pub since: Timestamp,
    /// The base address of the exchange.
    pub exchange: String,
}

/// The production exchange address a fresh client points at.
pub open spec fn spec_default_exchange() -> Seq<char> {
    "https://otx.alienvault.com"@
}

/// The URL of the first page of subscribed threats under a client's
/// configuration.
pub open spec fn spec_subscribed_url(c: Client) -> Seq<char> {
    c.exchange@ + "/api/v1/pulses/subscribed?limit="@ + dec_str(c.limit as nat)
        + "&modified_since="@ + rfc3339_of(c.since.spec_secs())
}

/// The URL of one threat record by its identifier.
pub open spec fn spec_threat_url(c: Client, id: Seq<char>) -> Seq<char> {
    c.exchange@ + "/api/v1/pulses/"@ + id
}

impl Default for Client {
    /// A fresh client: page limit 25, records since the epoch start
    /// (so all records), the production exchange address, and no API
    /// key yet.
    fn default() -> (r: Client)
        ensures
            r.apikey is None,
            r.limit == 25,
            r.since.spec_secs() == 0,
            r.exchange@ == spec_default_exchange(),
    {
        Client {
            apikey: None,
            limit: 25,
            since: Timestamp::epoch(),
            exchange: String::from_str("https://otx.alienvault.com"),
        }
    }
}

impl Client {
    /// A new client with the default settings.
    pub fn new() -> (r: Client)
        ensures
            r.apikey is None,
            r.limit == 25,
            r.since.spec_secs() == 0,
            r.exchange@ == spec_default_exchange(),
    {
        <Client as Default>::default()
    }

    /// Limit each page of results to `val` records. The default is 25.
    /// No value is rejected; a limit of zero simply asks the exchange
    /// for degenerate pages.
    pub fn limit(&mut self, val: usize)
        ensures
            final(self).limit == val,
            final(self).apikey == old(self).apikey,
            final(self).since == old(self).since,
            final(self).exchange == old(self).exchange,
    {
        self.limit = val;
    }

    /// Only ask for records modified at or after `t`. The default is
    /// the epoch start, which returns all records.
    pub fn since(&mut self, t: Timestamp)
        ensures
            final(self).since == t,
            final(self).apikey == old(self).apikey,
            final(self).limit == old(self).limit,
            final(self).exchange == old(self).exchange,
    {
        self.since = t;
    }

    /// Change the exchange address. The default is
    /// https://otx.alienvault.com.
    pub fn url(&mut self, location: &str)
        ensures
            final(self).exchange@ == location@,
            final(self).apikey == old(self).apikey,
            final(self).limit == old(self).limit,
            final(self).since == old(self).since,
    {
        self.exchange = String::from_str(location);
    }

    /// Set the API key that authenticates every request. It must be
    /// set before any request can be built.
    pub fn apikey(&mut self, key: &str)
        ensures
            final(self).apikey matches Some(k) && k@ == key@,
            final(self).limit == old(self).limit,
            final(self).since == old(self).since,
            final(self).exchange == old(self).exchange,
    {
        self.apikey = Some(String::from_str(key));
    }

    /// The request for a page of subscribed threats. Without a cursor
    /// it asks for the first page, under the configured limit and time
    /// filter; with one (the `next` value of an earlier page, an opaque
    /// absolute URL) it asks for that page verbatim.
    ///
    /// Fails with `MissingApiKey`, before anything reaches a transport,
    /// exactly when no API key is configured.
    pub fn threats_request(&self, page: Option<&str>) -> (r: Result<Request, Error>)
        ensures
            r is Ok <==> self.apikey is Some,
            r matches Err(e) ==> e == Error::MissingApiKey,
            r matches Ok(req) ==> req.apikey@ == self.apikey->0@,
            page is None ==> (r matches Ok(req) ==> req.url@ == spec_subscribed_url(*self)),
            page matches Some(u) ==> (r matches Ok(req) ==> req.url@ == u@),
    {
        let key = match &self.apikey {
            Some(k) => k.clone(),
            None => {
                return Err(Error::MissingApiKey);
            },
        };
        let url = match page {
            Some(u) => String::from_str(u),
            None => {
                let mut url = self.exchange.clone();
                url.append("/api/v1/pulses/subscribed?limit=");
                url.append(format_u64(self.limit as u64).as_str());
                url.append("&modified_since=");
                proof {
                    use_type_invariant(self.since);
                }
                url.append(format_rfc3339(self.since.secs()).as_str());
                url
            },
        };
        Ok(Request { url, apikey: key })
    }

    /// The request for a single threat record by its identifier.
    ///
    /// Fails with `MissingApiKey`, before anything reaches a transport,
    /// exactly when no API key is configured.
    pub fn threat_request(&self, id: &str) -> (r: Result<Request, Error>)
        ensures
            r is Ok <==> self.apikey is Some,
            r matches Err(e) ==> e == Error::MissingApiKey,
            r matches Ok(req) ==> req.apikey@ == self.apikey->0@,
            r matches Ok(req) ==> req.url@ == spec_threat_url(*self, id@),
    {
        let key = match &self.apikey {
            Some(k) => k.clone(),
            None => {
                return Err(Error::MissingApiKey);
            },
        };
        let mut url = self.exchange.clone();
        url.append("/api/v1/pulses/");
        url.append(id);
        Ok(Request { url, apikey: key })
    }
}

} // verus!
