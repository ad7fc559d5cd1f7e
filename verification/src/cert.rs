//! The certificate check: from the bytes of a certificate file to the DER
//! certificate that the guest program is run on, and from the journal it
//! commits to the domain name.

use vstd::prelude::*;
use vstd::utf8::*;
use crate::text::string_from_utf8;

verus! {

/// What the certificate command is asked to do.
#[derive(Clone, Debug, PartialEq, Eq)]
pub struct CertArgs {
    /// The path of the certificate file.
    pub cert: String,
    /// Whether a transferable proof is to be made.
    pub prove: bool,
}

/// What the certificate command does next.
#[derive(Clone, Debug, PartialEq, Eq)]
pub struct CertJob {
    /// The certificate, DER-encoded: the input of the guest program.
    pub der: Vec<u8>,
    /// Whether a transferable proof is to be made.
    pub prove: bool,
}

/// Why the bytes are no certificate, or the journal no domain.
#[derive(Clone, Copy, Debug, PartialEq, Eq, Structural)]
pub enum CertError {
    /// Fewer than two bytes.
    TooShort,
    /// Neither DER nor a PEM block.
    InvalidPem,
    /// The DER bytes are no X.509 certificate.
    InvalidCertificate,
    /// The journal is not UTF-8.
    InvalidDomain,
}

/// Whether the bytes begin as a DER sequence with a long-form length does.
pub open spec fn looks_der(data: Seq<u8>) -> bool {
    data.len() >= 2 && data[0] == 0x30 && 0x81 <= data[1] <= 0x83
}

/// The contents of the first PEM block that `x509_parser` reads from the
/// bytes, if it reads one.
pub uninterp spec fn pem_contents(data: Seq<u8>) -> Option<Seq<u8>>;

/// Whether `x509_parser` parses the bytes as a DER-encoded certificate.
pub uninterp spec fn x509_parses(der: Seq<u8>) -> bool;

/// Calls `x509_parser::pem::parse_x509_pem` and hands back the contents of
/// the block that it read.
#[verifier::external_body]
fn decode_pem(data: &[u8]) -> (r: Option<Vec<u8>>)
    ensures
        r is Some <==> pem_contents(data@) is Some,
        r is Some ==> r->Some_0@ == pem_contents(data@)->Some_0,
{
    match x509_parser::pem::parse_x509_pem(data) {
        Ok((_, pem)) => Some(pem.contents),
        Err(_) => None,
    }
}

/// Calls `x509_parser::parse_x509_certificate` and says whether it parsed.
#[verifier::external_body]
fn is_certificate(der: &[u8]) -> (r: bool)
    ensures
        r == x509_parses(der@),
{
    x509_parser::parse_x509_certificate(der).is_ok()
}

/// Whether the bytes begin as a DER sequence with a long-form length does.
pub fn is_der(data: &[u8]) -> (r: bool)
    ensures
        r == looks_der(data@),
{
    data.len() >= 2 && data[0] == 0x30 && 0x81 <= data[1] && data[1] <= 0x83
}

/// The DER bytes that a file stands for, given what its first PEM block
/// holds: the file itself if it looks like DER, else the block.
pub open spec fn der_choice(data: Seq<u8>, pem: Option<Seq<u8>>) -> Result<Seq<u8>, CertError> {
    if data.len() < 2 {
        Err(CertError::TooShort)
    } else if looks_der(data) {
        Ok(data)
    } else {
        match pem {
            Some(contents) => Ok(contents),
            None => Err(CertError::InvalidPem),
        }
    }
}

/// The certificate that a file stands for.
pub open spec fn certificate_of(data: Seq<u8>) -> Result<Seq<u8>, CertError> {
    match der_choice(data, pem_contents(data)) {
        Err(e) => Err(e),
        Ok(der) => if x509_parses(der) {
            Ok(der)
        } else {
            Err(CertError::InvalidCertificate)
        },
    }
}

/// Accepts DER bytes that parsed as a certificate, and refuses others.
pub fn judge_certificate(der: Vec<u8>, parses: bool) -> (r: Result<Vec<u8>, CertError>)
    ensures
        parses ==> r == Ok::<Vec<u8>, CertError>(der),
        !parses ==> r == Err::<Vec<u8>, CertError>(CertError::InvalidCertificate),
{
    if parses {
        Ok(der)
    } else {
        Err(CertError::InvalidCertificate)
    }
}

/// Turns the bytes of a certificate file, DER or PEM, into the DER bytes of
/// a certificate.
pub fn certificate_der(data: Vec<u8>) -> (r: Result<Vec<u8>, CertError>)
    ensures
        match certificate_of(data@) {
            Ok(der) => r is Ok && r->Ok_0@ == der,
            Err(e) => r is Err && r->Err_0 == e,
        },
{
    if data.len() < 2 {
        return Err(CertError::TooShort);
    }
    let der = if is_der(data.as_slice()) {
        data
    } else {
        match decode_pem(data.as_slice()) {
            Some(contents) => contents,
            None => {
                return Err(CertError::InvalidPem);
            },
        }
    };
    let parses = is_certificate(der.as_slice());
    judge_certificate(der, parses)
}

/// The domain that the guest program committed to: the journal as text.
pub fn domain_of_journal(journal: Vec<u8>) -> (r: Result<String, CertError>)
    ensures
        valid_utf8(journal@) ==> r is Ok && r->Ok_0@ == decode_utf8(journal@),
        !valid_utf8(journal@) ==> r == Err::<String, CertError>(CertError::InvalidDomain),
{
    match string_from_utf8(journal) {
        Some(domain) => Ok(domain),
        None => Err(CertError::InvalidDomain),
    }
}

impl CertArgs {
    /// Decides what the command does with the bytes of its certificate
    /// file: the DER certificate to run the guest program on, and whether
    /// to prove.
    pub fn run(self, data: Vec<u8>) -> (r: Result<CertJob, CertError>)
        ensures
            match certificate_of(data@) {
                Ok(der) => r is Ok && r->Ok_0.der@ == der && r->Ok_0.prove == self.prove,
                Err(e) => r is Err && r->Err_0 == e,
            },
    {
        match certificate_der(data) {
            Ok(der) => Ok(CertJob { der, prove: self.prove }),
            Err(e) => Err(e),
        }
    }
}

} // verus!
