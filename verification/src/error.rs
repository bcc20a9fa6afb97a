//! Error kinds of a download run and the text they are reported with.

use vstd::prelude::*;
use vstd::string::StringExecFns;
use vstd::string::to_string_from_display_ensures;

verus! {

/// What went wrong, by the step of the run that failed.
#[derive(Clone, Copy, Debug, PartialEq, Eq, Structural)]
pub enum ErrorKind {
    /// The transport connection could not be opened.
    Connection,
    /// The TLS handshake did not complete.
    Handshake,
    /// The session exposes no certificate chain.
    NoCertificateChain,
    /// The output directory could not be created.
    DirectoryCreation,
    /// The certificate's subject has no common name.
    CommonNameNotFound,
    /// A certificate or one of its values could not be encoded.
    Encoding,
    /// A file could not be written.
    FileWrite,
    /// The trust-store tool exited with a failure.
    TrustStoreImport,
    /// The trust-store tool could not be started.
    ToolNotFound,
}

/// An error of a run: its kind and the text of the underlying cause, which
/// is empty where the kind says everything.
#[derive(Debug, PartialEq, Eq)]
pub struct CertError {
    pub kind: ErrorKind,
    pub detail: String,
}

/// The mathematical value of a [`CertError`].
pub struct CertErrorView {
    pub kind: ErrorKind,
    pub detail: Seq<char>,
}

impl View for CertError {
    type V = CertErrorView;

    open spec fn view(&self) -> CertErrorView {
        CertErrorView { kind: self.kind, detail: self.detail@ }
    }
}

impl DeepView for CertError {
    type V = CertErrorView;

    open spec fn deep_view(&self) -> CertErrorView {
        self@
    }
}

/// Structural failures end the run; per-item failures are recorded and the
/// run goes on.
pub open spec fn fatal(kind: ErrorKind) -> bool {
    kind == ErrorKind::Connection || kind == ErrorKind::Handshake || kind
        == ErrorKind::NoCertificateChain || kind == ErrorKind::DirectoryCreation
}

/// The words that describe a kind of error.
pub open spec fn kind_text(kind: ErrorKind) -> Seq<char> {
    match kind {
        ErrorKind::Connection => "io"@,
        ErrorKind::Handshake => "openssl: handshake"@,
        ErrorKind::NoCertificateChain => "it was not possible to get certificate chain from server"@,
        ErrorKind::DirectoryCreation => "could not ensure output directory exists"@,
        ErrorKind::CommonNameNotFound => "common name not found"@,
        ErrorKind::Encoding => "openssl"@,
        ErrorKind::FileWrite => "fs: io"@,
        ErrorKind::TrustStoreImport => "keytool failed"@,
        ErrorKind::ToolNotFound => "it was not possible to call keytool command"@,
    }
}

/// The message of an error: the words of its kind, then, where there is a
/// cause, a colon, a space and the cause.
pub open spec fn message_text(error: CertErrorView) -> Seq<char> {
    if error.detail.len() == 0 {
        kind_text(error.kind)
    } else {
        kind_text(error.kind) + ": "@ + error.detail
    }
}

impl ErrorKind {
    /// Whether an error of this kind ends the run.
    pub fn is_fatal(&self) -> (b: bool)
        ensures
            b == fatal(*self),
    {
        match self {
            ErrorKind::Connection => true,
            ErrorKind::Handshake => true,
            ErrorKind::NoCertificateChain => true,
            ErrorKind::DirectoryCreation => true,
            _ => false,
        }
    }

    /// The words that describe this kind.
    pub fn text(&self) -> (s: &'static str)
        ensures
            s@ == kind_text(*self),
    {
        match self {
            ErrorKind::Connection => "io",
            ErrorKind::Handshake => "openssl: handshake",
            ErrorKind::NoCertificateChain => "it was not possible to get certificate chain from server",
            ErrorKind::DirectoryCreation => "could not ensure output directory exists",
            ErrorKind::CommonNameNotFound => "common name not found",
            ErrorKind::Encoding => "openssl",
            ErrorKind::FileWrite => "fs: io",
            ErrorKind::TrustStoreImport => "keytool failed",
            ErrorKind::ToolNotFound => "it was not possible to call keytool command",
        }
    }
}

impl Clone for CertError {
    fn clone(&self) -> (copy: Self)
        ensures
            copy@ == self@,
    {
        CertError { kind: self.kind, detail: self.detail.clone() }
    }
}

impl CertError {
    /// An error of the given kind caused by `detail`.
    pub fn new(kind: ErrorKind, detail: &str) -> (error: CertError)
        ensures
            error@ == (CertErrorView { kind, detail: detail@ }),
    {
        CertError { kind, detail: String::from_str(detail) }
    }

    /// An error whose kind says everything.
    pub fn bare(kind: ErrorKind) -> (error: CertError)
        ensures
            error@ == (CertErrorView { kind, detail: Seq::empty() }),
    {
        CertError { kind, detail: String::new() }
    }

    /// Whether this error ends the run.
    pub fn is_fatal(&self) -> (b: bool)
        ensures
            b == fatal(self@.kind),
    {
        self.kind.is_fatal()
    }

    /// The message this error is reported with.
    pub fn message(&self) -> (text: String)
        ensures
            text@ == message_text(self@),
    {
        let mut text = String::from_str(self.kind.text());
        if !self.detail.as_str().is_empty() {
            text.append(": ");
            text.append(self.detail.as_str());
        }
        text
    }
}

/// Declares `std::io::Error` so that it can be passed through verified code.
#[verifier::external_type_specification]
#[verifier::external_body]
pub struct ExIoError(std::io::Error);

/// Declares `openssl::error::ErrorStack`, the error type of the `openssl`
/// crate, so that it can be passed through verified code.
#[verifier::external_type_specification]
#[verifier::external_body]
pub struct ExErrorStack(openssl::error::ErrorStack);

/// Puts `context`, a colon and a space in front of `cause`.
pub open spec fn with_context(context: Seq<char>, cause: Seq<char>) -> Seq<char> {
    context + ": "@ + cause
}

/// Puts `context`, a colon and a space in front of `cause`.
pub fn add_context(context: &str, cause: &str) -> (message: String)
    ensures
        message@ == with_context(context@, cause@),
{
    let mut message = String::from_str(context);
    message.append(": ");
    message.append(cause);
    message
}

/// Maps an I/O error to its text with the context `io` in front.
pub fn map_io_err(err: std::io::Error) -> (message: String)
    ensures
        exists|cause: String| #[trigger]
            to_string_from_display_ensures::<std::io::Error>(&err, cause) && message@
                == with_context("io"@, cause@),
{
    let cause = err.to_string();
    add_context("io", cause.as_str())
}

/// Maps an error of the `openssl` crate to its text with the context
/// `openssl` in front.
pub fn map_openssl_err(err: openssl::error::ErrorStack) -> (message: String)
    ensures
        exists|cause: String| #[trigger]
            to_string_from_display_ensures::<openssl::error::ErrorStack>(&err, cause) && message@
                == with_context("openssl"@, cause@),
{
    let cause = err.to_string();
    add_context("openssl", cause.as_str())
}

} // verus!
