//! Configuration errors: everything that can go wrong before any store is
//! contacted.

use vstd::prelude::*;
use vstd::string::*;

verus! {

/// The storage backends a URL scheme can select.
#[derive(Clone, Copy, Debug, PartialEq, Eq, Structural)]
pub enum Scheme {
    File,
    S3,
    Gcs,
    Azure,
}

/// A credential that the S3 backend cannot do without.
#[derive(Clone, Copy, Debug, PartialEq, Eq, Structural)]
pub enum CredentialField {
    AccessKeyId,
    SecretAccessKey,
}

/// Why no store could be configured.
#[derive(Clone, Debug, PartialEq, Eq)]
pub enum ConfigError {
    /// The text is not a URL.
    MalformedUrl { text: String },
    /// The path of the URL cannot be normalised into an object key.
    InvalidPath { path: String },
    /// A `file` URL names a host.
    UnexpectedHost { url: String },
    /// An `s3` URL names no bucket.
    MissingBucket { url: String },
    /// A required credential is not configured.
    MissingCredentials { field: CredentialField },
    /// The scheme is recognised but its backend is not wired up.
    UnsupportedBackend { scheme: Scheme },
    /// The scheme is not one of `file`, `s3`, `gcs`, `azure`.
    UnsupportedScheme,
}

/// The mathematical content of a [`ConfigError`].
pub enum ConfigErrorView {
    MalformedUrl { text: Seq<char> },
    InvalidPath { path: Seq<char> },
    UnexpectedHost { url: Seq<char> },
    MissingBucket { url: Seq<char> },
    MissingCredentials { field: CredentialField },
    UnsupportedBackend { scheme: Scheme },
    UnsupportedScheme,
}

impl View for ConfigError {
    type V = ConfigErrorView;

    open spec fn view(&self) -> ConfigErrorView {
        match *self {
            ConfigError::MalformedUrl { text } => ConfigErrorView::MalformedUrl { text: text@ },
            ConfigError::InvalidPath { path } => ConfigErrorView::InvalidPath { path: path@ },
            ConfigError::UnexpectedHost { url } => ConfigErrorView::UnexpectedHost { url: url@ },
            ConfigError::MissingBucket { url } => ConfigErrorView::MissingBucket { url: url@ },
            ConfigError::MissingCredentials { field } => ConfigErrorView::MissingCredentials {
                field,
            },
            ConfigError::UnsupportedBackend { scheme } => ConfigErrorView::UnsupportedBackend {
                scheme,
            },
            ConfigError::UnsupportedScheme => ConfigErrorView::UnsupportedScheme,
        }
    }
}

/// The name of the environment variable that carries `field`.
pub open spec fn variable_name(field: CredentialField) -> Seq<char> {
    match field {
        CredentialField::AccessKeyId => "AWS_ACCESS_KEY_ID"@,
        CredentialField::SecretAccessKey => "AWS_SECRET_ACCESS_KEY"@,
    }
}

/// The one-line description of an error.
pub open spec fn message_text(e: ConfigErrorView) -> Seq<char> {
    match e {
        ConfigErrorView::MalformedUrl { text } => "Error parsing URL: '"@ + text + "'"@,
        ConfigErrorView::InvalidPath { path } => "Unsupported path: '"@ + path + "'"@,
        ConfigErrorView::UnexpectedHost { url } => "Unsupported file url. Expected no host: "@
            + url,
        ConfigErrorView::MissingBucket { url } => "unsupported s3 url. Expected bucket name: "@
            + url,
        ConfigErrorView::MissingCredentials { field } => "Error creating s3: "@ + variable_name(
            field,
        ) + " environment not set"@,
        ConfigErrorView::UnsupportedBackend { scheme } => match scheme {
            Scheme::Azure => "azure support not yet hooked up due to lack of testing. Help wanted!"@,
            _ => "GCS support not yet hooked up due to lack of testing. Help wanted!"@,
        },
        ConfigErrorView::UnsupportedScheme =>
            "Unsupported url. Try file:/foo, s3://bucket, gcs://bucket, azure://container"@,
    }
}

impl CredentialField {
    /// The environment variable that carries this credential.
    pub fn variable(&self) -> (name: &'static str)
        ensures
            name@ == variable_name(*self),
    {
        match self {
            CredentialField::AccessKeyId => "AWS_ACCESS_KEY_ID",
            CredentialField::SecretAccessKey => "AWS_SECRET_ACCESS_KEY",
        }
    }
}

impl ConfigError {
    /// Renders the error as a single descriptive line.
    pub fn message(&self) -> (text: String)
        ensures
            text@ == message_text(self@),
    {
        match self {
            ConfigError::MalformedUrl { text } => String::from_str("Error parsing URL: '").concat(
                text.as_str(),
            ).concat("'"),
            ConfigError::InvalidPath { path } => String::from_str("Unsupported path: '").concat(
                path.as_str(),
            ).concat("'"),
            ConfigError::UnexpectedHost { url } => String::from_str(
                "Unsupported file url. Expected no host: ",
            ).concat(url.as_str()),
            ConfigError::MissingBucket { url } => String::from_str(
                "unsupported s3 url. Expected bucket name: ",
            ).concat(url.as_str()),
            ConfigError::MissingCredentials { field } => String::from_str(
                "Error creating s3: ",
            ).concat(field.variable()).concat(" environment not set"),
            ConfigError::UnsupportedBackend { scheme } => match scheme {
                Scheme::Azure => String::from_str(
                    "azure support not yet hooked up due to lack of testing. Help wanted!",
                ),
                _ => String::from_str(
                    "GCS support not yet hooked up due to lack of testing. Help wanted!",
                ),
            },
            ConfigError::UnsupportedScheme => String::from_str(
                "Unsupported url. Try file:/foo, s3://bucket, gcs://bucket, azure://container",
            ),
        }
    }
}

} // verus!
