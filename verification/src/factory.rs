//! The store factory: from a URL and the configured credentials to the
//! configuration of exactly one backend.

use crate::error::{ConfigError, ConfigErrorView, CredentialField, Scheme};
use crate::location::{parse_key, Location};
use url::Url;
use vstd::prelude::*;
use vstd::string::*;

verus! {

/// `url::ParseError`, the reason why a text is no URL. It is only carried.
#[verifier::external_type_specification]
#[verifier::external_body]
pub struct ExUrlParseError(url::ParseError);

/// The parts of a URL that selecting a store reads.
#[derive(Clone, Debug, PartialEq, Eq)]
pub struct StoreUrl {
    /// The scheme, lower-cased, without the `:`.
    pub scheme: String,
    /// The host, if the URL names one.
    pub host: Option<String>,
    /// The path, without query and fragment.
    pub path: String,
    /// The whole URL as it is serialised.
    pub text: String,
}

/// The mathematical content of a [`StoreUrl`].
pub struct StoreUrlView {
    pub scheme: Seq<char>,
    pub host: Option<Seq<char>>,
    pub path: Seq<char>,
    pub text: Seq<char>,
}

impl View for StoreUrl {
    type V = StoreUrlView;

    open spec fn view(&self) -> StoreUrlView {
        StoreUrlView {
            scheme: self.scheme@,
            host: text_of(self.host),
            path: self.path@,
            text: self.text@,
        }
    }
}

/// The parts of the URL that `url::Url::parse` builds from a text, if it
/// accepts the text.
pub uninterp spec fn parsed_url(text: Seq<char>) -> Option<StoreUrlView>;

/// Calls `url::Url::parse` and copies out of the URL what `scheme`, `host`,
/// `path` and `as_str` return. The contract only names the outcome: the same
/// text is always refused or always gives the same parts.
#[verifier::external_body]
fn parse_url(text: &str) -> (r: Result<StoreUrl, url::ParseError>)
    ensures
        r is Ok <==> parsed_url(text@) is Some,
        r matches Ok(parts) ==> Some(parts@) == parsed_url(text@),
{
    let url = match Url::parse(text) {
        Ok(url) => url,
        Err(e) => return Err(e),
    };
    let host = match url.host() {
        Some(host) => Some(host.to_string()),
        None => None,
    };
    let (scheme, path) = (url.scheme().to_string(), url.path().to_string());
    Ok(StoreUrl { scheme, host, path, text: url.as_str().to_string() })
}

/// The configuration of one backend; fixed once built.
#[derive(Clone, Debug, PartialEq, Eq)]
pub enum StoreConfig {
    /// The local file system, rooted at `/`.
    Local,
    /// An S3-compatible store.
    S3 { bucket: String, access_key_id: String, secret_access_key: String, region: String },
    /// Google Cloud Storage.
    Gcs { service_account_path: String, bucket: String },
    /// Azure Blob Storage.
    Azure { account: String, access_key: String, container: String },
}

/// The mathematical content of a [`StoreConfig`].
pub enum StoreConfigView {
    Local,
    S3 {
        bucket: Seq<char>,
        access_key_id: Seq<char>,
        secret_access_key: Seq<char>,
        region: Seq<char>,
    },
    Gcs { service_account_path: Seq<char>, bucket: Seq<char> },
    Azure { account: Seq<char>, access_key: Seq<char>, container: Seq<char> },
}

impl View for StoreConfig {
    type V = StoreConfigView;

    open spec fn view(&self) -> StoreConfigView {
        match *self {
            StoreConfig::Local => StoreConfigView::Local,
            StoreConfig::S3 {
                bucket,
                access_key_id,
                secret_access_key,
                region,
            } => StoreConfigView::S3 {
                bucket: bucket@,
                access_key_id: access_key_id@,
                secret_access_key: secret_access_key@,
                region: region@,
            },
            StoreConfig::Gcs { service_account_path, bucket } => StoreConfigView::Gcs {
                service_account_path: service_account_path@,
                bucket: bucket@,
            },
            StoreConfig::Azure { account, access_key, container } => StoreConfigView::Azure {
                account: account@,
                access_key: access_key@,
                container: container@,
            },
        }
    }
}

/// What the environment holds for the S3 backend: the values of
/// `AWS_ACCESS_KEY_ID`, `AWS_SECRET_ACCESS_KEY` and `AWS_REGION`, each absent
/// when the variable is not set.
#[derive(Clone, Debug, PartialEq, Eq)]
pub struct S3Environment {
    pub access_key_id: Option<String>,
    pub secret_access_key: Option<String>,
    pub region: Option<String>,
}

/// The mathematical content of an [`S3Environment`].
pub struct S3EnvironmentView {
    pub access_key_id: Option<Seq<char>>,
    pub secret_access_key: Option<Seq<char>>,
    pub region: Option<Seq<char>>,
}

/// The text of an optional string.
pub open spec fn text_of(s: Option<String>) -> Option<Seq<char>> {
    match s {
        Some(t) => Some(t@),
        None => None,
    }
}

impl View for S3Environment {
    type V = S3EnvironmentView;

    open spec fn view(&self) -> S3EnvironmentView {
        S3EnvironmentView {
            access_key_id: text_of(self.access_key_id),
            secret_access_key: text_of(self.secret_access_key),
            region: text_of(self.region),
        }
    }
}

/// The content of a factory outcome.
pub open spec fn outcome_view(r: Result<StoreConfig, ConfigError>) -> Result<
    StoreConfigView,
    ConfigErrorView,
> {
    match r {
        Ok(config) => Ok(config@),
        Err(e) => Err(e@),
    }
}

/// The region used when none is configured.
pub open spec fn default_region() -> Seq<char> {
    "eu-central-1"@
}

/// The backend that a scheme selects, if the scheme is recognised.
pub open spec fn scheme_named(name: Seq<char>) -> Option<Scheme> {
    if name == "file"@ {
        Some(Scheme::File)
    } else if name == "s3"@ {
        Some(Scheme::S3)
    } else if name == "gcs"@ {
        Some(Scheme::Gcs)
    } else if name == "azure"@ {
        Some(Scheme::Azure)
    } else {
        None
    }
}

/// The S3 configuration for a bucket: the access key id is looked for first,
/// then the secret access key; the region falls back to the default.
pub open spec fn s3_store(bucket: Seq<char>, env: S3EnvironmentView) -> Result<
    StoreConfigView,
    ConfigErrorView,
> {
    if env.access_key_id is None {
        Err(ConfigErrorView::MissingCredentials { field: CredentialField::AccessKeyId })
    } else if env.secret_access_key is None {
        Err(ConfigErrorView::MissingCredentials { field: CredentialField::SecretAccessKey })
    } else {
        Ok(
            StoreConfigView::S3 {
                bucket,
                access_key_id: env.access_key_id.unwrap(),
                secret_access_key: env.secret_access_key.unwrap(),
                region: match env.region {
                    Some(region) => region,
                    None => default_region(),
                },
            },
        )
    }
}

/// The store that the parts of a URL select.
pub open spec fn resolved_store(
    scheme: Seq<char>,
    host: Option<Seq<char>>,
    url: Seq<char>,
    env: S3EnvironmentView,
) -> Result<StoreConfigView, ConfigErrorView> {
    match scheme_named(scheme) {
        Some(Scheme::File) => if host is Some {
            Err(ConfigErrorView::UnexpectedHost { url })
        } else {
            Ok(StoreConfigView::Local)
        },
        Some(Scheme::S3) => match host {
            Some(bucket) => s3_store(bucket, env),
            None => Err(ConfigErrorView::MissingBucket { url }),
        },
        Some(Scheme::Gcs) => Err(ConfigErrorView::UnsupportedBackend { scheme: Scheme::Gcs }),
        Some(Scheme::Azure) => Err(ConfigErrorView::UnsupportedBackend { scheme: Scheme::Azure }),
        None => Err(ConfigErrorView::UnsupportedScheme),
    }
}

/// Whether two texts are the same.
fn same_text(a: &str, b: &str) -> (r: bool)
    ensures
        r == (a@ == b@),
{
    let left = a.to_owned();
    let right = b.to_owned();
    left == right
}

/// Recognises a scheme name. Names are compared exactly, so an upper-case
/// spelling is not recognised.
pub fn classify_scheme(name: &str) -> (r: Option<Scheme>)
    ensures
        r == scheme_named(name@),
{
    if same_text(name, "file") {
        Some(Scheme::File)
    } else if same_text(name, "s3") {
        Some(Scheme::S3)
    } else if same_text(name, "gcs") {
        Some(Scheme::Gcs)
    } else if same_text(name, "azure") {
        Some(Scheme::Azure)
    } else {
        None
    }
}

/// Configures the S3 backend for `bucket_name` from what the environment
/// holds.
pub fn get_s3_store(bucket_name: &str, env: &S3Environment) -> (r: Result<
    StoreConfig,
    ConfigError,
>)
    ensures
        outcome_view(r) == s3_store(bucket_name@, env@),
{
    let access_key_id = match &env.access_key_id {
        Some(key) => key.clone(),
        None => {
            return Err(ConfigError::MissingCredentials { field: CredentialField::AccessKeyId });
        },
    };
    let secret_access_key = match &env.secret_access_key {
        Some(key) => key.clone(),
        None => {
            return Err(
                ConfigError::MissingCredentials { field: CredentialField::SecretAccessKey },
            );
        },
    };
    let region = match &env.region {
        Some(region) => region.clone(),
        None => String::from_str("eu-central-1"),
    };
    Ok(
        StoreConfig::S3 {
            bucket: String::from_str(bucket_name),
            access_key_id,
            secret_access_key,
            region,
        },
    )
}

/// The placeholder configuration of the Google Cloud Storage backend.
pub fn get_gcs_store() -> (config: StoreConfig)
    ensures
        config@ == (StoreConfigView::Gcs { service_account_path: "foo"@, bucket: "foo"@ }),
{
    StoreConfig::Gcs {
        service_account_path: String::from_str("foo"),
        bucket: String::from_str("foo"),
    }
}

/// The placeholder configuration of the Azure Blob Storage backend.
pub fn get_azure_store() -> (config: StoreConfig)
    ensures
        config@ == (StoreConfigView::Azure {
            account: "foo"@,
            access_key: "foo"@,
            container: "foo"@,
        }),
{
    StoreConfig::Azure {
        account: String::from_str("foo"),
        access_key: String::from_str("foo"),
        container: String::from_str("foo"),
    }
}

/// The store that a URL selects.
pub open spec fn store_for(url: StoreUrlView, env: S3EnvironmentView) -> Result<
    StoreConfigView,
    ConfigErrorView,
> {
    resolved_store(url.scheme, url.host, url.text, env)
}

/// Selects and configures the store that a URL names.
pub fn get_object_store(url: &StoreUrl, env: &S3Environment) -> (r: Result<
    StoreConfig,
    ConfigError,
>)
    ensures
        outcome_view(r) == store_for(url@, env@),
{
    match classify_scheme(url.scheme.as_str()) {
        Some(Scheme::File) => {
            if url.host.is_some() {
                Err(ConfigError::UnexpectedHost { url: url.text.clone() })
            } else {
                Ok(StoreConfig::Local)
            }
        },
        Some(Scheme::S3) => match &url.host {
            Some(bucket) => get_s3_store(bucket.as_str(), env),
            None => Err(ConfigError::MissingBucket { url: url.text.clone() }),
        },
        Some(Scheme::Gcs) => Err(ConfigError::UnsupportedBackend { scheme: Scheme::Gcs }),
        Some(Scheme::Azure) => Err(ConfigError::UnsupportedBackend { scheme: Scheme::Azure }),
        None => Err(ConfigError::UnsupportedScheme),
    }
}

impl StoreUrl {
    /// Reads a URL. Fails with `MalformedUrl`, carrying the text, exactly
    /// when the text is no URL.
    pub fn parse(text: &str) -> (r: Result<StoreUrl, ConfigError>)
        ensures
            match parsed_url(text@) {
                Some(parts) => r matches Ok(url) && url@ == parts,
                None => r matches Err(ConfigError::MalformedUrl { text: t }) && t@ == text@,
            },
    {
        match parse_url(text) {
            Ok(url) => Ok(url),
            Err(_) => Err(ConfigError::MalformedUrl { text: String::from_str(text) }),
        }
    }
}

/// A configured store and the prefix to list under it.
#[derive(Clone, Debug, PartialEq, Eq)]
pub struct Target {
    pub store: StoreConfig,
    pub prefix: Location,
}

/// The content of a resolved target: the store and the key of the prefix.
pub open spec fn target_view(r: Result<Target, ConfigError>) -> Result<
    (StoreConfigView, Seq<char>),
    ConfigErrorView,
> {
    match r {
        Ok(target) => Ok((target.store@, target.prefix@)),
        Err(e) => Err(e@),
    }
}

/// The target that a store outcome and a URL path give: the store is settled
/// first, then the path is normalised.
pub open spec fn target_from(
    store: Result<StoreConfigView, ConfigErrorView>,
    path: Seq<char>,
) -> Result<(StoreConfigView, Seq<char>), ConfigErrorView> {
    match store {
        Err(e) => Err(e),
        Ok(config) => match parse_key(path) {
            Some(key) => Ok((config, key)),
            None => Err(ConfigErrorView::InvalidPath { path }),
        },
    }
}

/// Joins a store outcome with the normalised form of a URL path.
pub fn target_for(store: Result<StoreConfig, ConfigError>, path: &str) -> (r: Result<
    Target,
    ConfigError,
>)
    ensures
        target_view(r) == target_from(outcome_view(store), path@),
{
    match store {
        Err(e) => Err(e),
        Ok(config) => match Location::parse(path) {
            Ok(prefix) => Ok(Target { store: config, prefix }),
            Err(e) => Err(e),
        },
    }
}

/// Resolves a URL to the store it names and the prefix to list.
pub fn resolve_url(url: &StoreUrl, env: &S3Environment) -> (r: Result<Target, ConfigError>)
    ensures
        target_view(r) == target_from(store_for(url@, env@), url@.path),
{
    let store = get_object_store(url, env);
    target_for(store, url.path.as_str())
}

/// Resolves the text of a URL: `MalformedUrl`, carrying the text, exactly
/// when the text is no URL; otherwise what the URL resolves to.
pub fn resolve(text: &str, env: &S3Environment) -> (r: Result<Target, ConfigError>)
    ensures
        match parsed_url(text@) {
            Some(url) => target_view(r) == target_from(store_for(url, env@), url.path),
            None => r matches Err(ConfigError::MalformedUrl { text: t }) && t@ == text@,
        },
{
    match StoreUrl::parse(text) {
        Ok(url) => resolve_url(&url, env),
        Err(e) => Err(e),
    }
}

/// The four scheme names are told apart, and each selects its own backend.
pub proof fn lemma_scheme_names()
    ensures
        scheme_named("file"@) == Some(Scheme::File),
        scheme_named("s3"@) == Some(Scheme::S3),
        scheme_named("gcs"@) == Some(Scheme::Gcs),
        scheme_named("azure"@) == Some(Scheme::Azure),
{
    reveal_strlit("file");
    reveal_strlit("s3");
    reveal_strlit("gcs");
    reveal_strlit("azure");
    assert("file"@.len() == 4);
    assert("s3"@.len() == 2);
    assert("gcs"@.len() == 3);
    assert("azure"@.len() == 5);
}

/// With everything it needs configured, a supported backend is always
/// built: a `file` URL without a host, and an `s3` URL with a bucket and both
/// credentials. The region is never required.
pub proof fn lemma_complete_configuration_succeeds(
    scheme: Seq<char>,
    host: Option<Seq<char>>,
    url: Seq<char>,
    env: S3EnvironmentView,
)
    requires
        (scheme == "file"@ && host is None) || (scheme == "s3"@ && host is Some
            && env.access_key_id is Some && env.secret_access_key is Some),
    ensures
        resolved_store(scheme, host, url, env) is Ok,
        scheme == "file"@ ==> resolved_store(scheme, host, url, env) == Ok::<
            StoreConfigView,
            ConfigErrorView,
        >(StoreConfigView::Local),
        scheme == "s3"@ ==> resolved_store(scheme, host, url, env) == s3_store(
            host.unwrap(),
            env,
        ),
{
    lemma_scheme_names();
}

/// An `s3` store fails to configure exactly when a required credential is
/// absent, and the error names the first absent one.
pub proof fn lemma_missing_credential_is_named(bucket: Seq<char>, env: S3EnvironmentView)
    ensures
        s3_store(bucket, env) is Err <==> (env.access_key_id is None || env.secret_access_key
            is None),
        env.access_key_id is None ==> s3_store(bucket, env) == Err::<
            StoreConfigView,
            ConfigErrorView,
        >(ConfigErrorView::MissingCredentials { field: CredentialField::AccessKeyId }),
        env.access_key_id is Some && env.secret_access_key is None ==> s3_store(bucket, env)
            == Err::<StoreConfigView, ConfigErrorView>(
            ConfigErrorView::MissingCredentials { field: CredentialField::SecretAccessKey },
        ),
{
}

/// A `file` URL that names a host is never accepted, whatever else is
/// configured.
pub proof fn lemma_file_url_with_host_is_rejected(
    host: Seq<char>,
    url: Seq<char>,
    env: S3EnvironmentView,
)
    ensures
        resolved_store("file"@, Some(host), url, env) == Err::<StoreConfigView, ConfigErrorView>(
            ConfigErrorView::UnexpectedHost { url },
        ),
{
    lemma_scheme_names();
}

/// The factory is total over the recognised schemes: the two backends that
/// are not wired up are refused as such, never mistaken for an unknown
/// scheme.
pub proof fn lemma_unwired_backends_are_refused(
    host: Option<Seq<char>>,
    url: Seq<char>,
    env: S3EnvironmentView,
)
    ensures
        resolved_store("gcs"@, host, url, env) == Err::<StoreConfigView, ConfigErrorView>(
            ConfigErrorView::UnsupportedBackend { scheme: Scheme::Gcs },
        ),
        resolved_store("azure"@, host, url, env) == Err::<StoreConfigView, ConfigErrorView>(
            ConfigErrorView::UnsupportedBackend { scheme: Scheme::Azure },
        ),
{
    lemma_scheme_names();
}

} // verus!
