//! The client handle: the node's endpoint and a reusable HTTP client.

use vstd::prelude::*;
use vstd::string::StringExecFns;

verus! {

#[verifier::external_type_specification]
#[verifier::external_body]
pub struct ExHttpClient(reqwest::Client);

/// Relies on reqwest's derived `Clone` for `Client`, which clones the `Arc`
/// that holds the connection pool; nothing is promised of the result.
pub assume_specification[ <reqwest::Client as Clone>::clone ](c: &reqwest::Client) -> reqwest::Client;

/// The scheme under which the endpoint is reached: plain HTTP, no TLS.
pub open spec fn scheme() -> Seq<char> {
    seq!['h', 't', 't', 'p', ':', '/', '/']
}

/// A handle on one consensus node: its endpoint address and the HTTP client
/// through which requests reach it.
#[derive(Clone)]
pub struct SdkClient {
    url: String,
    client: reqwest::Client,
}

impl SdkClient {
    /// The endpoint address, as `host:port`.
    pub closed spec fn address(&self) -> Seq<char> {
        self.url@
    }

    /// A handle on the node at `url`, reaching it through `client`.
    pub fn new(url: String, client: reqwest::Client) -> (r: SdkClient)
        ensures
            r.address() == url@,
    {
        SdkClient { client, url }
    }

    /// The endpoint address, as `host:port`.
    pub fn url(&self) -> (r: &String)
        ensures
            r@ == self.address(),
    {
        &self.url
    }

    /// The HTTP client shared by every request of this handle.
    pub fn http_client(&self) -> &reqwest::Client {
        &self.client
    }

    /// The URL to which requests are posted: the endpoint under `http://`.
    pub fn endpoint_url(&self) -> (r: String)
        ensures
            r@ == scheme() + self.address(),
    {
        let mut r = <String as StringExecFns>::from_str("http://");
        proof {
            reveal_strlit("http://");
            assert(r@ =~= scheme());
        }
        r.append(self.url.as_str());
        r
    }
}

} // verus!
