use cloudinary_upload::config::load_credentials;
use cloudinary_upload::errors::UploadError;

#[test]
fn all_credentials_present_loads_successfully() {
    let creds = load_credentials(
        Some("key".to_string()),
        Some("secret".to_string()),
        Some("cloud".to_string()),
    )
    .unwrap();
    assert_eq!(creds.api_key, "key");
    assert_eq!(creds.api_secret, "secret");
    assert_eq!(creds.cloud_name, "cloud");
}

#[test]
fn missing_api_key_is_a_configuration_error() {
    let err = load_credentials(None, Some("secret".to_string()), Some("cloud".to_string()))
        .unwrap_err();
    assert!(matches!(err, UploadError::Configuration(_)));
    assert!(err.message().contains("CLOUDINARY_API_KEY"));
}

#[test]
fn missing_api_secret_is_a_configuration_error() {
    let err = load_credentials(Some("key".to_string()), None, Some("cloud".to_string()))
        .unwrap_err();
    assert!(matches!(err, UploadError::Configuration(_)));
    assert!(err.message().contains("CLOUDINARY_API_SECRET"));
}

#[test]
fn missing_cloud_name_is_a_configuration_error() {
    let err = load_credentials(Some("key".to_string()), Some("secret".to_string()), None)
        .unwrap_err();
    assert!(matches!(err, UploadError::Configuration(_)));
    assert!(err.message().contains("CLOUDINARY_CLOUD_NAME"));
}

#[test]
fn empty_credential_values_are_configuration_errors() {
    for (key, secret, cloud) in [
        ("", "secret", "cloud"),
        ("key", "", "cloud"),
        ("key", "secret", ""),
    ] {
        let err = load_credentials(
            Some(key.to_string()),
            Some(secret.to_string()),
            Some(cloud.to_string()),
        )
        .unwrap_err();
        assert!(matches!(err, UploadError::Configuration(_)));
    }
}

#[test]
fn error_message_returns_the_carried_description() {
    assert_eq!(UploadError::Clock("before epoch".to_string()).message(), "before epoch");
    assert_eq!(UploadError::Transport("connection reset".to_string()).message(), "connection reset");
    assert_eq!(UploadError::Decode("missing field".to_string()).message(), "missing field");
    assert_eq!(UploadError::Configuration("no key".to_string()).message(), "no key");
}
