use vstd::prelude::*;

use x509_parser::extensions::{GeneralName, SubjectAlternativeName};
use x509_parser::prelude::FromDer;

verus! {

/// One PEM envelope: its label and its base64-decoded contents.
pub struct PemBlock {
    /// The label between `BEGIN` and the trailing dashes (`CERTIFICATE`,
    /// `PUBLIC KEY`, ...).
    pub label: String,
    /// The decoded payload; for a certificate, its DER bytes.
    pub contents: Vec<u8>,
}

/// The label and contents of the first PEM block in the bytes, or `None`
/// where no well-formed PEM block starts them.
pub uninterp spec fn pem_of(bytes: Seq<u8>) -> Option<(Seq<char>, Seq<u8>)>;

/// Relies on `x509_parser::pem::parse_x509_pem`: it reads the first PEM
/// block, yielding its label and its base64-decoded contents.
#[verifier::external_body]
pub(crate) fn parse_pem(bytes: &[u8]) -> (r: Option<PemBlock>)
    ensures
        r matches Some(p) ==> pem_of(bytes@) == Some((p.label@, p.contents@)),
        r is None ==> pem_of(bytes@) is None,
{
    match x509_parser::pem::parse_x509_pem(bytes) {
        Ok((_, pem)) => Some(PemBlock { label: pem.label, contents: pem.contents }),
        Err(_) => None,
    }
}

/// The views of a list of extensions: each identifier with its raw value.
pub open spec fn ext_views(exts: Seq<(String, Vec<u8>)>) -> Seq<(Seq<char>, Seq<u8>)> {
    exts.map_values(|e: (String, Vec<u8>)| (e.0@, e.1@))
}

/// The extension list of the certificate the DER bytes encode — each
/// extension's identifier in dotted-decimal form with its raw value, in
/// certificate order — or `None` where the bytes are not a well-formed
/// certificate.
pub uninterp spec fn cert_extensions_of(der: Seq<u8>) -> Option<Seq<(Seq<char>, Seq<u8>)>>;

/// Relies on `x509_parser::parse_x509_certificate`: it parses the DER bytes,
/// and the parsed certificate lists its extensions in order, each carrying
/// its identifier and its raw (inner) value. `Oid::to_id_string` writes an
/// identifier in dotted-decimal form (a hexadecimal fallback exists only for
/// arcs beyond `u64`), so distinct identifiers render distinctly.
#[verifier::external_body]
pub(crate) fn parse_certificate_extensions(der: &[u8]) -> (r: Option<Vec<(String, Vec<u8>)>>)
    ensures
        r matches Some(v) ==> cert_extensions_of(der@) == Some(ext_views(v@)),
        r is None ==> cert_extensions_of(der@) is None,
{
    match x509_parser::parse_x509_certificate(der) {
        Ok((_, cert)) => Some(
            cert.tbs_certificate.extensions().iter().map(
                |e| (e.oid.to_id_string(), e.value.to_vec()),
            ).collect(),
        ),
        Err(_) => None,
    }
}

/// The textual general names inside a subject-alternative-name extension
/// value, in order — e-mail, DNS and URI names as their bare string form,
/// every other kind in its generic display form — or `None` where the value
/// does not parse as a general-name list.
pub uninterp spec fn san_names_of(value: Seq<u8>) -> Option<Seq<Seq<char>>>;

/// Relies on `SubjectAlternativeName::from_der` of `x509_parser`: it parses
/// the extension value into the list of general names; e-mail, DNS and URI
/// entries carry their string directly, the others are shown through their
/// display form.
#[verifier::external_body]
pub(crate) fn parse_san_names(value: &[u8]) -> (r: Option<Vec<String>>)
    ensures
        r matches Some(v) ==> san_names_of(value@) == Some(v.deep_view()),
        r is None ==> san_names_of(value@) is None,
{
    match SubjectAlternativeName::from_der(value) {
        Ok((_, san)) => Some(
            san.general_names.iter().map(|n| match n {
                GeneralName::RFC822Name(s) | GeneralName::URI(s) | GeneralName::DNSName(s) => {
                    s.to_string()
                }
                other => other.to_string(),
            }).collect(),
        ),
        Err(_) => None,
    }
}

} // verus!
