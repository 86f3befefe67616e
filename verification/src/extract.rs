use vstd::prelude::*;
use vstd::utf8::{decode_utf8, valid_utf8};

use crate::codec::utf8_to_string;
use crate::errors::LogError;
use crate::record::{ExtensionRecord, RecordGhost};
use crate::x509::{
    cert_extensions_of, ext_views, parse_certificate_extensions, parse_pem, parse_san_names,
    pem_of, san_names_of,
};

verus! {

/// What extraction yields for one entry: a record to emit; a silent skip,
/// for a PEM envelope that carries something other than a certificate; or a
/// per-entry failure.
pub enum ExtractOutcome {
    Emitted(ExtensionRecord),
    SkippedNonCertificate,
    Failed(LogError),
}

/// The mathematical content of an `ExtractOutcome`.
pub enum OutcomeGhost {
    Emitted(RecordGhost),
    SkippedNonCertificate,
    Failed(LogError),
}

impl View for ExtractOutcome {
    type V = OutcomeGhost;

    open spec fn view(&self) -> OutcomeGhost {
        match *self {
            ExtractOutcome::Emitted(rec) => OutcomeGhost::Emitted(rec@),
            ExtractOutcome::SkippedNonCertificate => OutcomeGhost::SkippedNonCertificate,
            ExtractOutcome::Failed(e) => OutcomeGhost::Failed(e),
        }
    }
}

/// A record before any extension was applied: the log index and hash, and no
/// optional field.
pub open spec fn blank_record(log_index: u64, hash: Seq<char>) -> RecordGhost {
    RecordGhost {
        log_index,
        hash,
        subject: None,
        oidc_issuer: None,
        workflow_trigger: None,
        workflow_sha: None,
        workflow_name: None,
        workflow_repository: None,
        workflow_ref: None,
    }
}

/// What one extension does to the record. The subject-alternative-name
/// identifier sets `subject` to the last general name of the extension —
/// each name overwrites the previous one — and leaves it as it was where the
/// value does not parse or holds no name. Each provenance identifier sets
/// its field to the extension's raw value read as UTF-8 text, and leaves it
/// as it was where the value is not UTF-8. Every other identifier changes
/// nothing.
pub open spec fn apply_extension(r: RecordGhost, oid: Seq<char>, value: Seq<u8>) -> RecordGhost {
    if oid == "2.5.29.17"@ {
        match san_names_of(value) {
            Some(names) => if names.len() > 0 {
                RecordGhost { subject: Some(names.last()), ..r }
            } else {
                r
            },
            None => r,
        }
    } else if oid == "1.3.6.1.4.1.57264.1.1"@ {
        if valid_utf8(value) {
            RecordGhost { oidc_issuer: Some(decode_utf8(value)), ..r }
        } else {
            r
        }
    } else if oid == "1.3.6.1.4.1.57264.1.2"@ {
        if valid_utf8(value) {
            RecordGhost { workflow_trigger: Some(decode_utf8(value)), ..r }
        } else {
            r
        }
    } else if oid == "1.3.6.1.4.1.57264.1.3"@ {
        if valid_utf8(value) {
            RecordGhost { workflow_sha: Some(decode_utf8(value)), ..r }
        } else {
            r
        }
    } else if oid == "1.3.6.1.4.1.57264.1.4"@ {
        if valid_utf8(value) {
            RecordGhost { workflow_name: Some(decode_utf8(value)), ..r }
        } else {
            r
        }
    } else if oid == "1.3.6.1.4.1.57264.1.5"@ {
        if valid_utf8(value) {
            RecordGhost { workflow_repository: Some(decode_utf8(value)), ..r }
        } else {
            r
        }
    } else if oid == "1.3.6.1.4.1.57264.1.6"@ {
        if valid_utf8(value) {
            RecordGhost { workflow_ref: Some(decode_utf8(value)), ..r }
        } else {
            r
        }
    } else {
        r
    }
}

/// The record after walking the extension list in order.
pub open spec fn fold_extensions(r: RecordGhost, exts: Seq<(Seq<char>, Seq<u8>)>) -> RecordGhost
    decreases exts.len(),
{
    if exts.len() == 0 {
        r
    } else {
        fold_extensions(apply_extension(r, exts[0].0, exts[0].1), exts.drop_first())
    }
}

/// Walking one more extension applies it to the record walked so far.
proof fn lemma_fold_snoc(r: RecordGhost, exts: Seq<(Seq<char>, Seq<u8>)>, x: (Seq<char>, Seq<u8>))
    ensures
        fold_extensions(r, exts.push(x)) == apply_extension(fold_extensions(r, exts), x.0, x.1),
    decreases exts.len(),
{
    if exts.len() == 0 {
        assert(exts.push(x)[0] == x);
        assert(exts.push(x).drop_first() =~= Seq::<(Seq<char>, Seq<u8>)>::empty());
        assert(fold_extensions(r, exts.push(x)) == fold_extensions(
            apply_extension(r, x.0, x.1),
            exts.push(x).drop_first(),
        ));
        assert(fold_extensions(apply_extension(r, x.0, x.1), exts.push(x).drop_first())
            == apply_extension(r, x.0, x.1));
        assert(fold_extensions(r, exts) == r);
    } else {
        assert(exts.push(x)[0] == exts[0]);
        assert(exts.push(x).drop_first() =~= exts.drop_first().push(x));
        lemma_fold_snoc(apply_extension(r, exts[0].0, exts[0].1), exts.drop_first(), x);
        assert(fold_extensions(r, exts.push(x)) == fold_extensions(
            apply_extension(r, exts[0].0, exts[0].1),
            exts.drop_first().push(x),
        ));
        assert(fold_extensions(r, exts) == fold_extensions(
            apply_extension(r, exts[0].0, exts[0].1),
            exts.drop_first(),
        ));
    }
}

/// A PEM envelope carrying anything other than a certificate — a bare public
/// key, say — is skipped silently: extraction emits no record and reports no
/// error.
pub proof fn lemma_non_certificate_skipped(
    log_index: u64,
    hash: Seq<char>,
    cert_pem: Seq<u8>,
    label: Seq<char>,
    contents: Seq<u8>,
)
    requires
        pem_of(cert_pem) == Some((label, contents)),
        label != "CERTIFICATE"@,
    ensures
        spec_extract(log_index, hash, cert_pem) == OutcomeGhost::SkippedNonCertificate,
{
}

/// Of several general names in one subject-alternative-name extension, the
/// last one is retained: each name processed overwrites the previous one.
/// Nothing else of the record changes.
pub proof fn lemma_san_last_name_wins(r: RecordGhost, value: Seq<u8>, names: Seq<Seq<char>>)
    requires
        san_names_of(value) == Some(names),
        names.len() > 0,
    ensures
        apply_extension(r, "2.5.29.17"@, value) == (RecordGhost {
            subject: Some(names.last()),
            ..r
        }),
{
    assert(apply_extension(r, "2.5.29.17"@, value) =~= (RecordGhost {
        subject: Some(names.last()),
        ..r
    }));
}

/// The issuer-provenance extension sets the issuer field to its value read
/// as UTF-8 text and nothing else.
pub proof fn lemma_issuer_sets_only_issuer(r: RecordGhost, value: Seq<u8>)
    requires
        valid_utf8(value),
    ensures
        apply_extension(r, "1.3.6.1.4.1.57264.1.1"@, value) == (RecordGhost {
            oidc_issuer: Some(decode_utf8(value)),
            ..r
        }),
{
    proof_oid_literals_differ();
    assert(apply_extension(r, "1.3.6.1.4.1.57264.1.1"@, value) =~= (RecordGhost {
        oidc_issuer: Some(decode_utf8(value)),
        ..r
    }));
}

/// An extension whose identifier is outside the table changes nothing.
pub proof fn lemma_unrecognized_ignored(r: RecordGhost, oid: Seq<char>, value: Seq<u8>)
    requires
        oid != "2.5.29.17"@,
        oid != "1.3.6.1.4.1.57264.1.1"@,
        oid != "1.3.6.1.4.1.57264.1.2"@,
        oid != "1.3.6.1.4.1.57264.1.3"@,
        oid != "1.3.6.1.4.1.57264.1.4"@,
        oid != "1.3.6.1.4.1.57264.1.5"@,
        oid != "1.3.6.1.4.1.57264.1.6"@,
    ensures
        apply_extension(r, oid, value) == r,
{
}

/// The issuer identifier is not the subject-alternative-name identifier.
proof fn proof_oid_literals_differ()
    ensures
        "1.3.6.1.4.1.57264.1.1"@ != "2.5.29.17"@,
{
    reveal_strlit("1.3.6.1.4.1.57264.1.1");
    reveal_strlit("2.5.29.17");
    assert("1.3.6.1.4.1.57264.1.1"@.len() != "2.5.29.17"@.len());
}

/// Whether two texts are the same sequence of characters.
fn text_eq(a: &String, b: &str) -> (r: bool)
    ensures
        r == (a@ == b@),
{
    *a == b.to_owned()
}

/// Walks a certificate's extension list and fills the record, exactly as
/// `fold_extensions` over `apply_extension` states it. Identifiers outside
/// the table are ignored without error.
pub fn extract_fields(log_index: u64, hash: String, exts: &Vec<(String, Vec<u8>)>) -> (r:
    ExtensionRecord)
    ensures
        r@ == fold_extensions(blank_record(log_index, hash@), ext_views(exts@)),
{
    let mut rec = ExtensionRecord {
        log_index,
        hash,
        subject: None,
        oidc_issuer: None,
        workflow_trigger: None,
        workflow_sha: None,
        workflow_name: None,
        workflow_repository: None,
        workflow_ref: None,
    };
    proof {
        assert(rec@ =~= blank_record(log_index, rec.hash@));
        assert(ext_views(exts@).take(0) =~= Seq::<(Seq<char>, Seq<u8>)>::empty());
    }
    let ghost start: RecordGhost = rec@;
    let mut i: usize = 0;
    while i < exts.len()
        invariant
            0 <= i <= exts@.len(),
            rec@ == fold_extensions(start, ext_views(exts@).take(i as int)),
        decreases exts@.len() - i,
    {
        let ghost before: RecordGhost = rec@;
        let oid: &String = &exts[i].0;
        let value: &Vec<u8> = &exts[i].1;
        if text_eq(oid, "2.5.29.17") {
            match parse_san_names(value.as_slice()) {
                Some(names) => {
                    if names.len() > 0 {
                        let last: String = names[names.len() - 1].clone();
                        proof {
                            assert(names.deep_view().last() == last@);
                        }
                        rec.subject = Some(last);
                    }
                }
                None => {}
            }
        } else if text_eq(oid, "1.3.6.1.4.1.57264.1.1") {
            match utf8_to_string(value) {
                Some(s) => {
                    rec.oidc_issuer = Some(s);
                }
                None => {}
            }
        } else if text_eq(oid, "1.3.6.1.4.1.57264.1.2") {
            match utf8_to_string(value) {
                Some(s) => {
                    rec.workflow_trigger = Some(s);
                }
                None => {}
            }
        } else if text_eq(oid, "1.3.6.1.4.1.57264.1.3") {
            match utf8_to_string(value) {
                Some(s) => {
                    rec.workflow_sha = Some(s);
                }
                None => {}
            }
        } else if text_eq(oid, "1.3.6.1.4.1.57264.1.4") {
            match utf8_to_string(value) {
                Some(s) => {
                    rec.workflow_name = Some(s);
                }
                None => {}
            }
        } else if text_eq(oid, "1.3.6.1.4.1.57264.1.5") {
            match utf8_to_string(value) {
                Some(s) => {
                    rec.workflow_repository = Some(s);
                }
                None => {}
            }
        } else if text_eq(oid, "1.3.6.1.4.1.57264.1.6") {
            match utf8_to_string(value) {
                Some(s) => {
                    rec.workflow_ref = Some(s);
                }
                None => {}
            }
        }
        proof {
            assert(ext_views(exts@)[i as int] == (exts@[i as int].0@, exts@[i as int].1@));
            assert(rec@ =~= apply_extension(before, oid@, value@));
            assert(ext_views(exts@).take(i + 1) =~= ext_views(exts@).take(i as int).push(
                ext_views(exts@)[i as int],
            ));
            lemma_fold_snoc(start, ext_views(exts@).take(i as int), ext_views(exts@)[i as int]);
        }
        i = i + 1;
    }
    proof {
        assert(ext_views(exts@).take(exts@.len() as int) =~= ext_views(exts@));
    }
    rec
}

/// What extraction yields for one entry: a skip where the PEM envelope is
/// labeled anything other than `CERTIFICATE`; a per-entry failure where the
/// PEM or the certificate does not parse; else the record the extension walk
/// builds.
pub open spec fn spec_extract(log_index: u64, hash: Seq<char>, cert_pem: Seq<u8>) -> OutcomeGhost {
    match pem_of(cert_pem) {
        None => OutcomeGhost::Failed(LogError::CertificateParse),
        Some((label, contents)) => if label != "CERTIFICATE"@ {
            OutcomeGhost::SkippedNonCertificate
        } else {
            match cert_extensions_of(contents) {
                None => OutcomeGhost::Failed(LogError::CertificateParse),
                Some(exts) => OutcomeGhost::Emitted(
                    fold_extensions(blank_record(log_index, hash), exts),
                ),
            }
        },
    }
}

/// Parses the entry's PEM envelope and certificate and extracts the record,
/// exactly as `spec_extract` states it. An envelope labeled anything other
/// than `CERTIFICATE` is skipped silently: no record and no error.
pub fn extract(log_index: u64, hash: String, cert_pem: &Vec<u8>) -> (r: ExtractOutcome)
    ensures
        r@ == spec_extract(log_index, hash@, cert_pem@),
{
    let pem = match parse_pem(cert_pem.as_slice()) {
        Some(p) => p,
        None => {
            return ExtractOutcome::Failed(LogError::CertificateParse);
        }
    };
    if !text_eq(&pem.label, "CERTIFICATE") {
        return ExtractOutcome::SkippedNonCertificate;
    }
    let exts = match parse_certificate_extensions(pem.contents.as_slice()) {
        Some(e) => e,
        None => {
            return ExtractOutcome::Failed(LogError::CertificateParse);
        }
    };
    ExtractOutcome::Emitted(extract_fields(log_index, hash, &exts))
}

} // verus!
