use crate::errors::UploadError;
use crate::sign::MAX_SECRET_CHARS;
use vstd::prelude::*;
use vstd::string::StrSliceExecFns;
use vstd::string::StringExecFns;

verus! {

/// The three process-wide secrets, loaded once at startup and never mutated.
#[derive(Debug)]
pub struct Credentials {
    pub api_key: String,
    pub api_secret: String,
    pub cloud_name: String,
}

impl Credentials {
    /// Well-formed credentials: every value is present (non-empty), and the
    /// secret is short enough to sign with.
    pub open spec fn wf(&self) -> bool {
        &&& self.api_key@.len() > 0
        &&& self.api_secret@.len() > 0
        &&& self.api_secret@.len() <= MAX_SECRET_CHARS
        &&& self.cloud_name@.len() > 0
    }
}

/// Holds of an environment value that can serve as a credential: present and
/// non-empty.
pub open spec fn usable_credential(v: Option<String>) -> bool {
    match v {
        Some(s) => s@.len() > 0,
        None => false,
    }
}

/// The characters of an environment value, empty when it is absent.
pub open spec fn credential_chars(v: Option<String>) -> Seq<char> {
    match v {
        Some(s) => s@,
        None => Seq::empty(),
    }
}

/// Validates the three credential values read from the process environment.
///
/// Succeeds exactly when every value is present, non-empty and (for the
/// secret) short enough to sign with; any other input is rejected with a
/// configuration error before any request could be built, naming the first
/// unusable variable in the order key, secret, cloud name.
pub fn load_credentials(
    api_key: Option<String>,
    api_secret: Option<String>,
    cloud_name: Option<String>,
) -> (r: Result<Credentials, UploadError>)
    ensures
        r is Ok <==> usable_credential(api_key) && usable_credential(api_secret)
            && credential_chars(api_secret).len() <= MAX_SECRET_CHARS && usable_credential(
            cloud_name,
        ),
        r is Ok ==> {
            &&& r.unwrap().api_key@ == credential_chars(api_key)
            &&& r.unwrap().api_secret@ == credential_chars(api_secret)
            &&& r.unwrap().cloud_name@ == credential_chars(cloud_name)
            &&& r.unwrap().wf()
        },
        r is Err ==> r.unwrap_err() is Configuration,
{
    let key = match api_key {
        Some(k) => k,
        None => {
            return Err(
                UploadError::Configuration(String::from_str("CLOUDINARY_API_KEY env not set")),
            );
        },
    };
    if key.as_str().is_empty() {
        return Err(UploadError::Configuration(String::from_str("CLOUDINARY_API_KEY is empty")));
    }
    let secret = match api_secret {
        Some(s) => s,
        None => {
            return Err(
                UploadError::Configuration(String::from_str("CLOUDINARY_API_SECRET env not set")),
            );
        },
    };
    if secret.as_str().is_empty() {
        return Err(UploadError::Configuration(String::from_str("CLOUDINARY_API_SECRET is empty")));
    }
    if secret.as_str().unicode_len() as u64 > MAX_SECRET_CHARS {
        return Err(
            UploadError::Configuration(String::from_str("CLOUDINARY_API_SECRET is too long")),
        );
    }
    let cloud = match cloud_name {
        Some(c) => c,
        None => {
            return Err(
                UploadError::Configuration(String::from_str("CLOUDINARY_CLOUD_NAME env not set")),
            );
        },
    };
    if cloud.as_str().is_empty() {
        return Err(UploadError::Configuration(String::from_str("CLOUDINARY_CLOUD_NAME is empty")));
    }
    Ok(Credentials { api_key: key, api_secret: secret, cloud_name: cloud })
}

} // verus!
