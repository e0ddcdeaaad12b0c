//! Locally generated provisioning material: a node's derived identifier
//! and the certificate signing request for its host name. The random
//! parts come from the uuid and rcgen crates through trusted wrappers;
//! everything derived from them is verified.

use vstd::prelude::*;
use vstd::string::StringExecFns;

use crate::strings::{
    cert_hostname, cert_request_body, cert_request_body_spec, escape_newlines, escape_nl, lower_of,
    strip_carriage_returns, to_lowercase, without_cr,
};

verus! {

/// Relies on uuid::Uuid::new_v4 and its hyphenated textual form: a fresh
/// random identifier, thirty-six characters long. Nothing more can be
/// promised of a random value.
#[verifier::external_body]
fn fresh_uuid() -> (r: String)
    ensures
        r@.len() == 36,
{
    uuid::Uuid::new_v4().to_string()
}

/// A node's derived identifier: the country lowercased, a dash, and a
/// fresh UUID. Every identifier starts with the lowercased country, and
/// the random tail is always thirty-six characters.
pub fn make_identifier(country: &String) -> (r: String)
    ensures
        exists|u: Seq<char>| u.len() == 36 && r@ == lower_of(country@) + seq!['-'] + u,
{
    let lowered = to_lowercase(country);
    let tail = fresh_uuid();
    let r = lowered.concat("-").concat(tail.as_str());
    proof {
        reveal_strlit("-");
        assert("-"@ =~= seq!['-']);
        assert(tail@.len() == 36 && r@ == lower_of(country@) + seq!['-'] + tail@);
    }
    r
}

#[verifier::external_type_specification]
#[verifier::external_body]
pub struct ExCertificate(rcgen::Certificate);

/// Relies on rcgen::generate_simple_self_signed: a fresh self-signed
/// certificate for the given host name. The key material is random, so
/// nothing is promised of it; a generation error comes back as `None`.
#[verifier::external_body]
fn generate_self_signed(hostname: &String) -> (r: Option<rcgen::Certificate>) {
    match rcgen::generate_simple_self_signed(vec![hostname.clone()]) {
        Ok(cert) => Some(cert),
        Err(_) => None,
    }
}

/// Relies on rcgen::Certificate::serialize_request_pem: the certificate
/// signing request in PEM form; a serialization error comes back as
/// `None`.
#[verifier::external_body]
fn serialize_request_pem(cert: &rcgen::Certificate) -> (r: Option<String>) {
    match cert.serialize_request_pem() {
        Ok(pem) => Some(pem),
        Err(_) => None,
    }
}

/// Relies on rcgen::Certificate::serialize_private_key_pem: the private
/// key in PEM form. The key pair is generated locally, never remote, so
/// the call returns.
#[verifier::external_body]
fn serialize_private_key_pem(cert: &rcgen::Certificate) -> (r: String) {
    cert.serialize_private_key_pem()
}

/// The locally computed part of a certificate request for
/// `<id>.reseda.app`: generates the key pair, strips carriage returns
/// from the CSR, escapes its newlines, and frames it in the certificate
/// authority's request body. Returns the body and the private key PEM,
/// which never leaves the control plane; `None` when the local generator
/// fails.
pub fn prepare_certificate_request(id: &String) -> (r: Option<(String, String)>)
    ensures
        r matches Some((body, key)) ==> exists|pem: Seq<char>|
            body@ == cert_request_body_spec(id@, escape_nl(without_cr(pem))),
    {
    let hostname = cert_hostname(id);
    let cert = match generate_self_signed(&hostname) {
        Some(cert) => cert,
        None => {
            return None;
        },
    };
    let csr_pem = match serialize_request_pem(&cert) {
        Some(pem) => pem,
        None => {
            return None;
        },
    };
    let key_pem = serialize_private_key_pem(&cert);
    let stripped = strip_carriage_returns(&csr_pem);
    let escaped = escape_newlines(&stripped);
    let body = cert_request_body(id, &escaped);
    proof {
        assert(body@ == cert_request_body_spec(id@, escape_nl(without_cr(csr_pem@))));
    }
    Some((body, key_pem))
}

} // verus!
