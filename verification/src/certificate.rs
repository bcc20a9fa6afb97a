//! Certificates as the run sees them: what a certificate is called and how
//! it is written down.
//!
//! A certificate is held as its DER bytes. Reading the subject and encoding
//! to PEM are the work of the `openssl` crate; what is decided from their
//! results is decided here.

use crate::error::{add_context, with_context, CertError, CertErrorView, ErrorKind};
use openssl::error::ErrorStack;
use openssl::x509::X509;
use vstd::prelude::*;

verus! {

/// One X.509 certificate, as its DER encoding.
#[derive(Debug, PartialEq, Eq)]
pub struct Certificate {
    pub der: Vec<u8>,
}

impl View for Certificate {
    type V = Seq<u8>;

    open spec fn view(&self) -> Seq<u8> {
        self.der@
    }
}

impl DeepView for Certificate {
    type V = Seq<u8>;

    open spec fn deep_view(&self) -> Seq<u8> {
        self@
    }
}

/// One entry of a certificate's subject: the number of its attribute type
/// and its value as text, or nothing where the value is not valid text.
#[derive(Debug, PartialEq, Eq)]
pub struct NameEntry {
    pub nid: i32,
    pub text: Option<String>,
}

impl DeepView for NameEntry {
    type V = (i32, Option<Seq<char>>);

    open spec fn deep_view(&self) -> (i32, Option<Seq<char>>) {
        (
            self.nid,
            match self.text {
                Some(text) => Some(text@),
                None => None,
            },
        )
    }
}

/// The number of the attribute type "Common Name".
pub const COMMON_NAME_NID: i32 = 13;

/// The entries of the subject of the certificate with the given DER bytes,
/// in the order the certificate encodes them, each as the number of its
/// attribute type and its value as text; nothing where the bytes are not a
/// certificate.
pub uninterp spec fn x509_subject(der: Seq<u8>) -> Option<Seq<(i32, Option<Seq<char>>)>>;

/// The PEM encoding of the certificate with the given DER bytes; nothing
/// where the bytes are not a certificate or it cannot be encoded.
pub uninterp spec fn x509_pem(der: Seq<u8>) -> Option<Seq<u8>>;

/// Parses the bytes with `X509::from_der` of the `openssl` crate and hands
/// out the entries that `X509Ref::subject_name` and `X509NameRef::entries`
/// give, in their order, each as a plain value: the raw number of
/// `X509NameEntryRef::object().nid()` and the text of
/// `X509NameEntryRef::data().as_utf8()`, or nothing where `as_utf8` fails.
///
/// Nothing of this is proved. The contract claims that the outcome depends
/// on the bytes alone, and gives it the name [`x509_subject`]: the entries
/// where the bytes parse, nothing where `from_der` fails.
#[verifier::external_body]
#[allow(deprecated)]
fn subject_entries(der: &[u8]) -> (entries: Result<Vec<NameEntry>, ErrorStack>)
    ensures
        match entries {
            Ok(list) => x509_subject(der@) == Some(list.deep_view()),
            Err(_) => x509_subject(der@) is None,
        },
{
    let certificate = X509::from_der(der)?;
    Ok(
        certificate.subject_name().entries().map(
            |entry|
                NameEntry {
                    nid: entry.object().nid().as_raw(),
                    text: entry.data().as_utf8().ok().map(|text| text.to_string()),
                },
        ).collect(),
    )
}

/// Parses the bytes with `X509::from_der` of the `openssl` crate and
/// encodes the certificate with `X509Ref::to_pem`.
///
/// Nothing of this is proved. The contract claims that the outcome depends
/// on the bytes alone, and gives it the name [`x509_pem`]: the encoding
/// where both calls succeed, nothing where one of them fails.
#[verifier::external_body]
fn pem_encoding(der: &[u8]) -> (pem: Result<Vec<u8>, ErrorStack>)
    ensures
        match pem {
            Ok(bytes) => x509_pem(der@) == Some(bytes@),
            Err(_) => x509_pem(der@) is None,
        },
{
    X509::from_der(der)?.to_pem()
}

/// The common name among the entries of a subject: the text of the first
/// entry whose attribute type is "Common Name". Without such an entry the
/// common name is not found; where that entry's value is not valid text it
/// cannot be encoded.
pub open spec fn common_name_in(entries: Seq<(i32, Option<Seq<char>>)>) -> Result<
    Seq<char>,
    ErrorKind,
>
    decreases entries.len(),
{
    if entries.len() == 0 {
        Err(ErrorKind::CommonNameNotFound)
    } else if entries[0].0 == COMMON_NAME_NID {
        match entries[0].1 {
            Some(text) => Ok(text),
            None => Err(ErrorKind::Encoding),
        }
    } else {
        common_name_in(entries.drop_first())
    }
}

/// The cause given with an error of resolving a common name among entries.
pub open spec fn common_name_detail(kind: ErrorKind) -> Seq<char> {
    if kind == ErrorKind::Encoding {
        "utf-8 parsing"@
    } else {
        Seq::empty()
    }
}

/// The common name of the certificate with the given DER bytes.
pub open spec fn common_name_of(der: Seq<u8>) -> Result<Seq<char>, ErrorKind> {
    match x509_subject(der) {
        Some(entries) => common_name_in(entries),
        None => Err(ErrorKind::Encoding),
    }
}

/// Whether `entries[k]` is the first entry whose attribute type is "Common
/// Name".
pub open spec fn first_common_name_at(entries: Seq<(i32, Option<Seq<char>>)>, k: int) -> bool {
    &&& 0 <= k < entries.len()
    &&& entries[k].0 == COMMON_NAME_NID
    &&& forall|j: int| 0 <= j < k ==> (#[trigger] entries[j]).0 != COMMON_NAME_NID
}

/// The common name is decided by the first entry of type "Common Name", in
/// the order of the entries, and by nothing behind it; it is not found
/// exactly when no entry has that type.
pub proof fn common_name_is_first_match(entries: Seq<(i32, Option<Seq<char>>)>)
    ensures
        forall|k: int| #[trigger]
            first_common_name_at(entries, k) ==> common_name_in(entries) == (match entries[k].1 {
                Some(text) => Ok::<Seq<char>, ErrorKind>(text),
                None => Err(ErrorKind::Encoding),
            }),
        (forall|j: int| 0 <= j < entries.len() ==> (#[trigger] entries[j]).0 != COMMON_NAME_NID)
            <==> common_name_in(entries) == Err::<Seq<char>, ErrorKind>(
            ErrorKind::CommonNameNotFound,
        ),
    decreases entries.len(),
{
    if entries.len() > 0 {
        let rest = entries.drop_first();
        common_name_is_first_match(rest);
        if entries[0].0 != COMMON_NAME_NID {
            assert forall|k: int| #[trigger] first_common_name_at(entries, k) implies common_name_in(
                entries,
            ) == (match entries[k].1 {
                Some(text) => Ok::<Seq<char>, ErrorKind>(text),
                None => Err(ErrorKind::Encoding),
            }) by {
                assert(first_common_name_at(rest, k - 1));
            }
            if common_name_in(entries) == Err::<Seq<char>, ErrorKind>(
                ErrorKind::CommonNameNotFound,
            ) {
                assert forall|j: int| 0 <= j < entries.len() implies (#[trigger] entries[j]).0
                    != COMMON_NAME_NID by {
                    if j > 0 {
                        assert(rest[j - 1] == entries[j]);
                    }
                }
            }
        }
    }
}

/// Resolves the common name among the entries of a subject.
pub fn common_name_from_entries(entries: &Vec<NameEntry>) -> (name: Result<String, CertError>)
    ensures
        match common_name_in(entries.deep_view()) {
            Ok(text) => name matches Ok(found) && found@ == text,
            Err(kind) => name matches Err(error) && error@ == (CertErrorView {
                kind,
                detail: common_name_detail(kind),
            }),
        },
{
    let ghost all = entries.deep_view();
    let mut i: usize = 0;
    assert(all.skip(0) =~= all);
    while i < entries.len()
        invariant
            i <= entries.len(),
            all == entries.deep_view(),
            common_name_in(all) == common_name_in(all.skip(i as int)),
        decreases entries.len() - i,
    {
        let entry = &entries[i];
        proof {
            let rest = all.skip(i as int);
            assert(rest.drop_first() =~= all.skip(i + 1));
        }
        if entry.nid == COMMON_NAME_NID {
            return match &entry.text {
                Some(text) => Ok(text.clone()),
                None => Err(CertError::new(ErrorKind::Encoding, "utf-8 parsing")),
            };
        }
        i += 1;
    }
    Err(CertError::bare(ErrorKind::CommonNameNotFound))
}

/// A certificate that was read in full: its common name and its PEM
/// encoding.
#[derive(Debug, PartialEq, Eq)]
pub struct Resolved {
    pub common_name: String,
    pub pem: Vec<u8>,
}

/// The mathematical value of a [`Resolved`] certificate.
pub struct ResolvedView {
    pub common_name: Seq<char>,
    pub pem: Seq<u8>,
}

impl View for Resolved {
    type V = ResolvedView;

    open spec fn view(&self) -> ResolvedView {
        ResolvedView { common_name: self.common_name@, pem: self.pem@ }
    }
}

/// What reading the certificate with the given DER bytes gives: its common
/// name and PEM encoding, or the kind of the first step that failed. The
/// name is resolved first; a certificate without a name is not encoded.
pub open spec fn resolution_of(der: Seq<u8>) -> Result<ResolvedView, ErrorKind> {
    match common_name_of(der) {
        Err(kind) => Err(kind),
        Ok(common_name) => match x509_pem(der) {
            Some(pem) => Ok(ResolvedView { common_name, pem }),
            None => Err(ErrorKind::Encoding),
        },
    }
}

/// Whether `detail` is the cause given where reading the certificate with
/// the given DER bytes fails: it names the step that failed, and, where the
/// failure is one of the `openssl` crate, goes on with that crate's text.
pub open spec fn failure_detail(der: Seq<u8>, detail: Seq<char>) -> bool {
    match x509_subject(der) {
        None => caused_in("x509 parsing"@, detail),
        Some(entries) => match common_name_in(entries) {
            Err(kind) => detail == common_name_detail(kind),
            Ok(_) => caused_in("pem encoding"@, detail),
        },
    }
}

/// Whether `outcome` is what reading the certificate with the given DER
/// bytes gives.
pub open spec fn resolves_to(der: Seq<u8>, outcome: Result<Resolved, CertError>) -> bool {
    match resolution_of(der) {
        Ok(resolved) => outcome matches Ok(found) && found@ == resolved,
        Err(kind) => outcome matches Err(error) && error@.kind == kind && failure_detail(
            der,
            error@.detail,
        ),
    }
}

/// Whether `detail` names `step` and then gives some cause.
pub open spec fn caused_in(step: Seq<char>, detail: Seq<char>) -> bool {
    exists|cause: Seq<char>| detail == #[trigger] with_context(step, cause)
}

/// An encoding error caused by the `openssl` crate while doing `step`.
fn encoding_error(step: &str, cause: ErrorStack) -> (error: CertError)
    ensures
        error@.kind == ErrorKind::Encoding,
        caused_in(step@, error@.detail),
{
    let text = cause.to_string();
    let detail = add_context(step, text.as_str());
    CertError { kind: ErrorKind::Encoding, detail }
}

/// Returns the common name of the certificate: the value of the first
/// entry of its subject whose attribute type is "Common Name", in the order
/// the certificate encodes its entries.
///
/// Fails with `CommonNameNotFound` where the subject has no such entry, and
/// with `Encoding` where that entry's value is not valid text or the bytes
/// are not a certificate.
pub fn cert_common_name(cert: &Certificate) -> (name: Result<String, CertError>)
    ensures
        match common_name_of(cert@) {
            Ok(text) => name matches Ok(found) && found@ == text,
            Err(kind) => name matches Err(error) && error@.kind == kind && (match x509_subject(
                cert@,
            ) {
                Some(_) => error@.detail == common_name_detail(kind),
                None => caused_in("x509 parsing"@, error@.detail),
            }),
        },
{
    match subject_entries(cert.der.as_slice()) {
        Ok(entries) => common_name_from_entries(&entries),
        Err(cause) => Err(encoding_error("x509 parsing", cause)),
    }
}

impl Certificate {
    /// Encodes the certificate to PEM. Fails with `Encoding` where the bytes
    /// are not a certificate or it cannot be encoded.
    pub fn to_pem(&self) -> (pem: Result<Vec<u8>, CertError>)
        ensures
            match x509_pem(self@) {
                Some(bytes) => pem matches Ok(found) && found@ == bytes,
                None => pem matches Err(error) && error@.kind == ErrorKind::Encoding && caused_in(
                    "pem encoding"@,
                    error@.detail,
                ),
            },
    {
        match pem_encoding(self.der.as_slice()) {
            Ok(bytes) => Ok(bytes),
            Err(cause) => Err(encoding_error("pem encoding", cause)),
        }
    }

    /// Reads the certificate in full: resolves its common name, then encodes
    /// it to PEM.
    pub fn resolve(&self) -> (outcome: Result<Resolved, CertError>)
        ensures
            resolves_to(self@, outcome),
    {
        match cert_common_name(self) {
            Err(error) => Err(error),
            Ok(common_name) => match self.to_pem() {
                Ok(pem) => Ok(Resolved { common_name, pem }),
                Err(error) => Err(error),
            },
        }
    }
}

/// Reads every certificate of a chain, in the order of the chain. A
/// certificate that cannot be read leaves its error in its place and does
/// not stop the others.
pub fn resolve_chain(chain: &Vec<Certificate>) -> (outcomes: Vec<Result<Resolved, CertError>>)
    ensures
        outcomes.len() == chain.len(),
        forall|i: int| 0 <= i < chain.len() ==> resolves_to(#[trigger] chain[i]@, outcomes[i]),
{
    let mut outcomes: Vec<Result<Resolved, CertError>> = Vec::new();
    let mut i: usize = 0;
    while i < chain.len()
        invariant
            i <= chain.len(),
            outcomes.len() == i,
            forall|j: int| 0 <= j < i ==> resolves_to(#[trigger] chain[j]@, outcomes[j]),
        decreases chain.len() - i,
    {
        let outcome = chain[i].resolve();
        outcomes.push(outcome);
        i += 1;
    }
    outcomes
}

} // verus!
