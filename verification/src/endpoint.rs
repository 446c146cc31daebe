use crate::config::Credentials;
use crate::decimal::dec_digits;
use crate::decimal::lemma_dec_digits_len;
use crate::request::query_chars;
use crate::request::UploadRequest;
use crate::sign::signature_chars;
use vstd::prelude::*;
use vstd::string::StringExecFns;

verus! {

/// The provider-side access-control mode, selected through distinct upload
/// endpoints.  There are no other states.
pub enum UploadPrivacy {
    Public,
    Private,
}

/// The path segment an access-control mode selects.
pub open spec fn path_segment_chars(p: UploadPrivacy) -> Seq<char> {
    match p {
        UploadPrivacy::Public => "upload"@,
        UploadPrivacy::Private => "private"@,
    }
}

/// Everything of the endpoint URI before the privacy-selected path segment:
/// the fixed scheme and API host, then the versioned path with the cloud
/// name and the automatic resource type.
pub open spec fn endpoint_prefix_chars(cloud: Seq<char>) -> Seq<char> {
    "https://api.cloudinary.com"@ + "/v1_1/"@ + cloud + "/auto/"@
}

/// Everything of the endpoint URI after the privacy-selected path segment:
/// the query with the three authentication parameters.
pub open spec fn endpoint_suffix_chars(key: Seq<char>, timestamp: u64, sig: Seq<char>) -> Seq<
    char,
> {
    "?"@ + query_chars(key, timestamp, sig)
}

/// The full authenticated endpoint URI for one upload attempt.
pub open spec fn endpoint_uri_chars(
    cloud: Seq<char>,
    key: Seq<char>,
    timestamp: u64,
    sig: Seq<char>,
    p: UploadPrivacy,
) -> Seq<char> {
    endpoint_prefix_chars(cloud) + path_segment_chars(p) + endpoint_suffix_chars(
        key,
        timestamp,
        sig,
    )
}

/// Maps an access-control mode to its path segment.
pub fn path_segment(privacy: &UploadPrivacy) -> (r: &'static str)
    ensures
        r@ == path_segment_chars(*privacy),
{
    match privacy {
        UploadPrivacy::Public => "upload",
        UploadPrivacy::Private => "private",
    }
}

/// Builds the fully-qualified authenticated endpoint URL for an upload at
/// the given timestamp: scheme and fixed API host, the path selected by the
/// privacy mode, and the query parameters `api_key`, `timestamp` and
/// `signature` in that literal order, with the signature taken over the
/// canonical signable string for the same timestamp.
pub fn generate_upload_endpoint(
    creds: &Credentials,
    privacy: &UploadPrivacy,
    timestamp: u64,
) -> (r: String)
    requires
        creds.wf(),
    ensures
        r@ == endpoint_uri_chars(
            creds.cloud_name@,
            creds.api_key@,
            timestamp,
            signature_chars(creds.api_secret@, timestamp),
            *privacy,
        ),
        signature_chars(creds.api_secret@, timestamp).len() == 64,
{
    let req = UploadRequest::new(creds, timestamp);
    let mut uri = String::from_str("https://api.cloudinary.com");
    uri.append("/v1_1/");
    uri.append(creds.cloud_name.as_str());
    uri.append("/auto/");
    uri.append(path_segment(privacy));
    uri.append("?");
    let query = req.query_string();
    uri.append(query.as_str());
    proof {
        assert(uri@ =~= endpoint_uri_chars(
            creds.cloud_name@,
            creds.api_key@,
            timestamp,
            signature_chars(creds.api_secret@, timestamp),
            *privacy,
        ));
    }
    uri
}

/// Law: the public endpoint URI is exactly the fixed scheme and host, then a
/// path that starts `/v1_1/<cloud>/auto/` and ends in `upload`, then a query
/// holding exactly the parameters `api_key`, `timestamp` and `signature`,
/// each with a non-empty value.  For an endpoint the library builds, the key
/// is non-empty because the credentials are well-formed, and the signature
/// has 64 characters.
pub proof fn lemma_public_endpoint_shape(
    cloud: Seq<char>,
    key: Seq<char>,
    timestamp: u64,
    sig: Seq<char>,
)
    requires
        key.len() > 0,
        sig.len() > 0,
    ensures
        endpoint_uri_chars(cloud, key, timestamp, sig, UploadPrivacy::Public)
            == "https://api.cloudinary.com"@ + "/v1_1/"@ + cloud + "/auto/"@ + "upload"@ + "?"@
            + "api_key="@ + key + "&timestamp="@ + dec_digits(timestamp as nat) + "&signature="@
            + sig,
        dec_digits(timestamp as nat).len() > 0,
{
    lemma_dec_digits_len(timestamp as nat);
    assert(endpoint_uri_chars(cloud, key, timestamp, sig, UploadPrivacy::Public)
        =~= "https://api.cloudinary.com"@ + "/v1_1/"@ + cloud + "/auto/"@ + "upload"@ + "?"@
        + "api_key="@ + key + "&timestamp="@ + dec_digits(timestamp as nat) + "&signature="@
        + sig);
}

/// Law: for the same credentials, timestamp and signature, the private
/// endpoint differs from the public one only in the final path segment,
/// `private` in place of `upload`; everything before and after the segment
/// is identical.
pub proof fn lemma_visibility_selects_only_path_segment(
    cloud: Seq<char>,
    key: Seq<char>,
    timestamp: u64,
    sig: Seq<char>,
)
    ensures
        endpoint_uri_chars(cloud, key, timestamp, sig, UploadPrivacy::Public)
            == endpoint_prefix_chars(cloud) + "upload"@ + endpoint_suffix_chars(
            key,
            timestamp,
            sig,
        ),
        endpoint_uri_chars(cloud, key, timestamp, sig, UploadPrivacy::Private)
            == endpoint_prefix_chars(cloud) + "private"@ + endpoint_suffix_chars(
            key,
            timestamp,
            sig,
        ),
{
}

} // verus!
