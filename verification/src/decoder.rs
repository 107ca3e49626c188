//! The certificate decoder: what this library takes on trust from the
//! `x509-certificate` crate. A decoded certificate is opaque here; the names
//! below stand for what the crate reads out of one.

use crate::path::text_of;
use crate::timestamp::Timestamp;
use vstd::prelude::*;
use x509_certificate::X509Certificate;
use x509_certificate::X509CertificateError;

verus! {

/// A decoded certificate, `x509_certificate::X509Certificate`.
#[verifier::external_type_specification]
#[verifier::external_body]
pub struct ExX509Certificate(X509Certificate);

/// Why data did not decode, `x509_certificate::X509CertificateError`.
#[verifier::external_type_specification]
#[verifier::external_body]
pub struct ExX509CertificateError(X509CertificateError);

/// The certificate that PEM data decodes to, where it decodes.
pub uninterp spec fn pem_certificate(data: Seq<u8>) -> Option<X509Certificate>;

/// The common name of a certificate's subject, where it has a readable one.
pub uninterp spec fn subject_common_name_of(cert: X509Certificate) -> Option<Seq<char>>;

/// The common name of a certificate's issuer, where it has a readable one.
pub uninterp spec fn issuer_common_name_of(cert: X509Certificate) -> Option<Seq<char>>;

/// Whether a certificate names its subject as its own issuer.
pub uninterp spec fn subject_is_issuer_of(cert: X509Certificate) -> bool;

/// The instant at which a certificate's validity begins.
pub uninterp spec fn not_before_of(cert: X509Certificate) -> Timestamp;

/// The instant at which a certificate's validity ends.
pub uninterp spec fn not_after_of(cert: X509Certificate) -> Timestamp;

/// Calls `X509Certificate::from_pem`. Decoding is a function of the data
/// alone: it succeeds exactly where `pem_certificate` has a value, and then
/// yields that value.
#[verifier::external_body]
pub(crate) fn decode_pem(data: &[u8]) -> (r: Result<X509Certificate, X509CertificateError>)
    ensures
        match r {
            Ok(cert) => pem_certificate(data@) == Some(cert),
            Err(_) => pem_certificate(data@) is None,
        },
{
    X509Certificate::from_pem(data)
}

/// Calls `X509Certificate::subject_common_name`, which yields the first
/// common name of the subject where that name can be read as text.
#[verifier::external_body]
pub(crate) fn subject_common_name(cert: &X509Certificate) -> (r: Option<String>)
    ensures
        text_of(r) == subject_common_name_of(*cert),
{
    cert.subject_common_name()
}

/// Calls `X509Certificate::issuer_common_name`, which yields the first
/// common name of the issuer where that name can be read as text.
#[verifier::external_body]
pub(crate) fn issuer_common_name(cert: &X509Certificate) -> (r: Option<String>)
    ensures
        text_of(r) == issuer_common_name_of(*cert),
{
    cert.issuer_common_name()
}

/// Calls `X509Certificate::subject_is_issuer`, which compares the whole
/// subject name with the whole issuer name.
#[verifier::external_body]
pub(crate) fn subject_is_issuer(cert: &X509Certificate) -> (r: bool)
    ensures
        r == subject_is_issuer_of(*cert),
{
    cert.subject_is_issuer()
}

/// Calls `X509Certificate::validity_not_before` and takes the seconds and
/// nanoseconds of the date it gives.
#[verifier::external_body]
pub(crate) fn validity_not_before(cert: &X509Certificate) -> (r: Timestamp)
    ensures
        r == not_before_of(*cert),
{
    let date = cert.validity_not_before();
    Timestamp { secs: date.timestamp(), nanos: date.timestamp_subsec_nanos() }
}

/// Calls `X509Certificate::validity_not_after` and takes the seconds and
/// nanoseconds of the date it gives.
#[verifier::external_body]
pub(crate) fn validity_not_after(cert: &X509Certificate) -> (r: Timestamp)
    ensures
        r == not_after_of(*cert),
{
    let date = cert.validity_not_after();
    Timestamp { secs: date.timestamp(), nanos: date.timestamp_subsec_nanos() }
}

} // verus!
