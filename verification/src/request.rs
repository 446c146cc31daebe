use crate::config::Credentials;
use crate::decimal::dec_digits;
use crate::decimal::u64_to_string;
use crate::sign::sign_request;
use crate::sign::signature_chars;
use vstd::prelude::*;
use vstd::string::StringExecFns;

verus! {

/// The authentication parameters sent with one upload attempt: never
/// persisted, rendered for transport as HTTP query parameters.
pub struct UploadRequest {
    pub api_key: String,
    pub timestamp: u64,
    pub signature: String,
}

/// The rendering of the authentication parameters as HTTP query parameters,
/// in the literal order `api_key`, `timestamp`, `signature`.
pub open spec fn query_chars(key: Seq<char>, timestamp: u64, sig: Seq<char>) -> Seq<char> {
    "api_key="@ + key + "&timestamp="@ + dec_digits(timestamp as nat) + "&signature="@ + sig
}

impl UploadRequest {
    /// Builds the authentication parameters for one upload attempt at the
    /// given timestamp: the caller's API key, the timestamp itself, and the
    /// signature over the canonical signable string.
    pub fn new(creds: &Credentials, timestamp: u64) -> (r: UploadRequest)
        requires
            creds.wf(),
        ensures
            r.api_key@ == creds.api_key@,
            r.timestamp == timestamp,
            r.signature@ == signature_chars(creds.api_secret@, timestamp),
            r.signature@.len() == 64,
    {
        UploadRequest {
            api_key: creds.api_key.clone(),
            timestamp,
            signature: sign_request(creds.api_secret.as_str(), timestamp),
        }
    }

    /// Renders this request as the query-parameter string of the endpoint
    /// URL, exactly as `query_chars` describes.
    pub fn query_string(&self) -> (r: String)
        ensures
            r@ == query_chars(self.api_key@, self.timestamp, self.signature@),
    {
        let mut q = String::from_str("api_key=");
        q.append(self.api_key.as_str());
        q.append("&timestamp=");
        let ts = u64_to_string(self.timestamp);
        q.append(ts.as_str());
        q.append("&signature=");
        q.append(self.signature.as_str());
        proof {
            assert(q@ =~= query_chars(self.api_key@, self.timestamp, self.signature@));
        }
        q
    }
}

/// The single field the library reads from the provider's JSON response;
/// any further response fields are ignored by design.
pub struct UploadResponse {
    pub asset_id: String,
}

impl UploadResponse {
    /// Wraps the identifier decoded from the provider's response.
    pub fn new(asset_id: String) -> (r: UploadResponse)
        ensures
            r.asset_id@ == asset_id@,
    {
        UploadResponse { asset_id }
    }
}

} // verus!
