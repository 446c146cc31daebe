use cloudinary_upload::config::Credentials;
use cloudinary_upload::endpoint::generate_upload_endpoint;
use cloudinary_upload::endpoint::path_segment;
use cloudinary_upload::endpoint::UploadPrivacy;

fn demo_credentials() -> Credentials {
    Credentials {
        api_key: "key123".to_string(),
        api_secret: "abcd".to_string(),
        cloud_name: "demo".to_string(),
    }
}

#[test]
fn public_endpoint_is_exactly_the_expected_url() {
    let creds = demo_credentials();
    let url = generate_upload_endpoint(&creds, &UploadPrivacy::Public, 1700000000);
    let expected = "https://api.cloudinary.com/v1_1/demo/auto/upload?api_key=key123&timestamp=1700000000&signature=29886ed878035abc09e29f7e8ce19b01d9f3caa3ad0851d5d5c2aaa5ab812369";
    assert_eq!(url, expected);
}

#[test]
fn public_endpoint_path_and_query_shape() {
    let creds = demo_credentials();
    let url = generate_upload_endpoint(&creds, &UploadPrivacy::Public, 1700000000);
    let rest = url.strip_prefix("https://api.cloudinary.com").unwrap();
    let (path, query) = rest.split_once('?').unwrap();
    assert!(path.starts_with("/v1_1/demo/auto/upload"));
    let params: Vec<(&str, &str)> = query.split('&').map(|p| p.split_once('=').unwrap()).collect();
    let names: Vec<&str> = params.iter().map(|(n, _)| *n).collect();
    assert_eq!(names, ["api_key", "timestamp", "signature"]);
    for (_, value) in params {
        assert!(!value.is_empty());
    }
}

#[test]
fn private_endpoint_differs_only_in_the_path_segment() {
    let creds = demo_credentials();
    let public = generate_upload_endpoint(&creds, &UploadPrivacy::Public, 1700000000);
    let private = generate_upload_endpoint(&creds, &UploadPrivacy::Private, 1700000000);
    assert_ne!(public, private);
    assert_eq!(public.replace("/auto/upload?", "/auto/private?"), private);
}

#[test]
fn path_segment_maps_each_privacy_mode() {
    assert_eq!(path_segment(&UploadPrivacy::Public), "upload");
    assert_eq!(path_segment(&UploadPrivacy::Private), "private");
}
