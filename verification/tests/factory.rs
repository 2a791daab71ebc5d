use store_pipeline::error::{ConfigError, CredentialField, Scheme};
use store_pipeline::factory::{
    classify_scheme, get_azure_store, get_gcs_store, get_object_store, get_s3_store, resolve,
    resolve_url, target_for, S3Environment, StoreConfig, StoreUrl,
};

fn full_env() -> S3Environment {
    S3Environment {
        access_key_id: Some("AKIDEXAMPLE".to_string()),
        secret_access_key: Some("secret".to_string()),
        region: None,
    }
}

fn empty_env() -> S3Environment {
    S3Environment { access_key_id: None, secret_access_key: None, region: None }
}

#[test]
fn file_url_without_host_selects_local_store() {
    let url = StoreUrl::parse("file:///tmp/data").unwrap();
    assert_eq!(get_object_store(&url, &empty_env()), Ok(StoreConfig::Local));
    let short = StoreUrl::parse("file:/temp").unwrap();
    assert_eq!(get_object_store(&short, &empty_env()), Ok(StoreConfig::Local));
}

#[test]
fn file_url_with_host_is_rejected() {
    let url = StoreUrl::parse("file://host/path").unwrap();
    let r = get_object_store(&url, &full_env());
    assert_eq!(r, Err(ConfigError::UnexpectedHost { url: "file://host/path".to_string() }));
    assert_eq!(
        r.unwrap_err().message(),
        "Unsupported file url. Expected no host: file://host/path"
    );
}

#[test]
fn s3_url_with_credentials_uses_default_region() {
    let url = StoreUrl::parse("s3://my-awesome-bucket/some/key").unwrap();
    assert_eq!(
        get_object_store(&url, &full_env()),
        Ok(StoreConfig::S3 {
            bucket: "my-awesome-bucket".to_string(),
            access_key_id: "AKIDEXAMPLE".to_string(),
            secret_access_key: "secret".to_string(),
            region: "eu-central-1".to_string(),
        })
    );
}

#[test]
fn s3_url_keeps_configured_region() {
    let mut env = full_env();
    env.region = Some("us-west-2".to_string());
    assert_eq!(
        get_s3_store("bucket", &env),
        Ok(StoreConfig::S3 {
            bucket: "bucket".to_string(),
            access_key_id: "AKIDEXAMPLE".to_string(),
            secret_access_key: "secret".to_string(),
            region: "us-west-2".to_string(),
        })
    );
}

#[test]
fn s3_without_access_key_id_names_the_field() {
    let mut env = full_env();
    env.access_key_id = None;
    let r = get_s3_store("bucket", &env);
    assert_eq!(r, Err(ConfigError::MissingCredentials { field: CredentialField::AccessKeyId }));
    assert_eq!(
        r.unwrap_err().message(),
        "Error creating s3: AWS_ACCESS_KEY_ID environment not set"
    );
}

#[test]
fn s3_without_secret_names_the_field() {
    let mut env = full_env();
    env.secret_access_key = None;
    let r = get_s3_store("bucket", &env);
    assert_eq!(
        r,
        Err(ConfigError::MissingCredentials { field: CredentialField::SecretAccessKey })
    );
    assert_eq!(
        r.unwrap_err().message(),
        "Error creating s3: AWS_SECRET_ACCESS_KEY environment not set"
    );
}

#[test]
fn s3_without_any_credential_reports_the_key_id_first() {
    assert_eq!(
        get_s3_store("bucket", &empty_env()),
        Err(ConfigError::MissingCredentials { field: CredentialField::AccessKeyId })
    );
}

#[test]
fn s3_url_without_bucket_is_rejected() {
    let url = StoreUrl::parse("s3:/no/bucket").unwrap();
    let r = get_object_store(&url, &full_env());
    assert_eq!(r, Err(ConfigError::MissingBucket { url: "s3:/no/bucket".to_string() }));
    assert_eq!(
        r.unwrap_err().message(),
        "unsupported s3 url. Expected bucket name: s3:/no/bucket"
    );
}

#[test]
fn gcs_and_azure_are_recognised_but_unsupported() {
    let gcs = StoreUrl::parse("gcs://bucket/key").unwrap();
    let r = get_object_store(&gcs, &full_env());
    assert_eq!(r, Err(ConfigError::UnsupportedBackend { scheme: Scheme::Gcs }));
    assert_eq!(
        r.unwrap_err().message(),
        "GCS support not yet hooked up due to lack of testing. Help wanted!"
    );
    let azure = StoreUrl::parse("azure://container/key").unwrap();
    let r = get_object_store(&azure, &full_env());
    assert_eq!(r, Err(ConfigError::UnsupportedBackend { scheme: Scheme::Azure }));
    assert_eq!(
        r.unwrap_err().message(),
        "azure support not yet hooked up due to lack of testing. Help wanted!"
    );
}

#[test]
fn unknown_scheme_lists_the_recognised_ones() {
    let url = StoreUrl::parse("http://example.com/x").unwrap();
    let r = get_object_store(&url, &full_env());
    assert_eq!(r, Err(ConfigError::UnsupportedScheme));
    let message = r.unwrap_err().message();
    assert_eq!(
        message,
        "Unsupported url. Try file:/foo, s3://bucket, gcs://bucket, azure://container"
    );
    for scheme in ["file", "s3", "gcs", "azure"] {
        assert!(message.contains(scheme));
    }
}

#[test]
fn scheme_names_are_classified_exactly() {
    assert_eq!(classify_scheme("file"), Some(Scheme::File));
    assert_eq!(classify_scheme("s3"), Some(Scheme::S3));
    assert_eq!(classify_scheme("gcs"), Some(Scheme::Gcs));
    assert_eq!(classify_scheme("azure"), Some(Scheme::Azure));
    assert_eq!(classify_scheme("S3"), None);
    assert_eq!(classify_scheme(""), None);
    assert_eq!(classify_scheme("files"), None);
}

#[test]
fn url_scheme_is_lower_cased_before_dispatch() {
    let url = StoreUrl::parse("FILE:///tmp").unwrap();
    assert_eq!(get_object_store(&url, &empty_env()), Ok(StoreConfig::Local));
}

fn parts(scheme: &str, host: Option<&str>, text: &str) -> StoreUrl {
    StoreUrl {
        scheme: scheme.to_string(),
        host: host.map(|h| h.to_string()),
        path: "/x".to_string(),
        text: text.to_string(),
    }
}

#[test]
fn store_is_selected_from_plain_parts() {
    assert_eq!(
        get_object_store(&parts("file", None, "file:///x"), &empty_env()),
        Ok(StoreConfig::Local)
    );
    assert_eq!(
        get_object_store(&parts("file", Some("h"), "file://h/x"), &empty_env()),
        Err(ConfigError::UnexpectedHost { url: "file://h/x".to_string() })
    );
    assert_eq!(
        get_object_store(&parts("s3", None, "s3:/x"), &full_env()),
        Err(ConfigError::MissingBucket { url: "s3:/x".to_string() })
    );
    assert_eq!(
        get_object_store(&parts("s3", Some("b"), "s3://b/x"), &empty_env()),
        Err(ConfigError::MissingCredentials { field: CredentialField::AccessKeyId })
    );
    assert_eq!(
        get_object_store(&parts("ftp", Some("b"), "ftp://b/x"), &full_env()),
        Err(ConfigError::UnsupportedScheme)
    );
    assert_eq!(
        get_object_store(&parts("S3", Some("b"), "S3://b/x"), &full_env()),
        Err(ConfigError::UnsupportedScheme)
    );
}

#[test]
fn a_url_is_read_into_its_parts() {
    let url = StoreUrl::parse("S3://Bucket/a/b?x=1#frag").unwrap();
    assert_eq!(url.scheme, "s3");
    assert_eq!(url.host, Some("Bucket".to_string()));
    assert_eq!(url.path, "/a/b");
    assert_eq!(url.text, "s3://Bucket/a/b?x=1#frag");
    let local = StoreUrl::parse("file:/temp").unwrap();
    assert_eq!(local.scheme, "file");
    assert_eq!(local.host, None);
    assert_eq!(local.path, "/temp");
    assert_eq!(
        StoreUrl::parse("no scheme"),
        Err(ConfigError::MalformedUrl { text: "no scheme".to_string() })
    );
}

#[test]
fn placeholder_backends_hold_their_fixed_values() {
    assert_eq!(
        get_gcs_store(),
        StoreConfig::Gcs { service_account_path: "foo".to_string(), bucket: "foo".to_string() }
    );
    assert_eq!(
        get_azure_store(),
        StoreConfig::Azure {
            account: "foo".to_string(),
            access_key: "foo".to_string(),
            container: "foo".to_string(),
        }
    );
}

#[test]
fn resolve_gives_store_and_normalised_prefix() {
    let target = resolve("file:///tmp/data/", &empty_env()).unwrap();
    assert_eq!(target.store, StoreConfig::Local);
    assert_eq!(target.prefix.as_str(), "tmp/data");
    let target = resolve("s3://bucket/a/b?x=1", &full_env()).unwrap();
    assert_eq!(target.prefix.as_str(), "a/b");
    let root = resolve("s3://bucket", &full_env()).unwrap();
    assert_eq!(root.prefix.as_str(), "");
}

#[test]
fn resolve_rejects_text_that_is_no_url() {
    let r = resolve("not a url", &full_env());
    assert_eq!(r, Err(ConfigError::MalformedUrl { text: "not a url".to_string() }));
    assert_eq!(r.unwrap_err().message(), "Error parsing URL: 'not a url'");
}

#[test]
fn resolve_rejects_a_path_with_an_empty_segment() {
    let url = StoreUrl::parse("file:///a//b").unwrap();
    let r = resolve_url(&url, &empty_env());
    assert_eq!(r, Err(ConfigError::InvalidPath { path: "/a//b".to_string() }));
    assert_eq!(r.unwrap_err().message(), "Unsupported path: '/a//b'");
}

#[test]
fn store_errors_come_before_path_errors() {
    let url = StoreUrl::parse("file://host/a//b").unwrap();
    assert_eq!(
        resolve_url(&url, &empty_env()),
        Err(ConfigError::UnexpectedHost { url: "file://host/a//b".to_string() })
    );
    assert_eq!(
        target_for(Err(ConfigError::UnsupportedScheme), "/ok"),
        Err(ConfigError::UnsupportedScheme)
    );
    let target = target_for(Ok(StoreConfig::Local), "/ok").unwrap();
    assert_eq!(target.prefix.as_str(), "ok");
}

#[test]
fn credential_fields_name_their_variables() {
    assert_eq!(CredentialField::AccessKeyId.variable(), "AWS_ACCESS_KEY_ID");
    assert_eq!(CredentialField::SecretAccessKey.variable(), "AWS_SECRET_ACCESS_KEY");
}

#[test]
fn errors_carry_the_url_as_it_is_serialised() {
    let r = resolve("FILE://Host/a/../b", &empty_env());
    assert_eq!(r, Err(ConfigError::UnexpectedHost { url: "file://host/b".to_string() }));
}
