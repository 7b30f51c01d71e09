use vstd::prelude::*;
use vstd::string::StringExecFns;

verus! {

/// Why no certificate could be had.
#[derive(Clone, Copy, Debug, PartialEq, Eq, Structural)]
pub enum CertError {
    /// One of the certificate and key paths is empty and the other is not.
    MissingCertOrKey,
    /// Generating the self-signed certificate failed.
    GenerationFailed,
}

/// Where the certificate and key come from.
pub enum CertPlan {
    /// Read both from the configured files.
    ReadFiles,
    /// A self-signed certificate for `localhost`, generated in memory, in DER.
    Generated { cert_der: Vec<u8>, key_der: Vec<u8> },
}

/// Relies on rcgen's `generate_simple_self_signed` for a certificate with the
/// given subject names and a fresh key, then on `Certificate::serialize_der`
/// and `Certificate::serialize_private_key_der` for their DER forms. The key
/// is random, so of the bytes only that neither DER form is empty is promised.
#[verifier::external_body]
fn generate_self_signed(names: Vec<String>) -> (r: Option<(Vec<u8>, Vec<u8>)>)
    ensures
        r matches Some((c, k)) ==> c@.len() > 0 && k@.len() > 0,
{
    let cert = rcgen::generate_simple_self_signed(names).ok()?;
    let cert_der = cert.serialize_der().ok()?;
    let key_der = cert.serialize_private_key_der();
    Some((cert_der, key_der))
}

/// The subject names of the self-signed certificate: `localhost` alone.
pub fn self_signed_names() -> (r: Vec<String>)
    ensures
        r@.len() == 1,
        r@[0]@ == "localhost"@,
{
    let mut r: Vec<String> = Vec::new();
    r.push(String::from_str("localhost"));
    r
}

/// The plan for a generated certificate: its DER bytes when generation gave
/// them, else the generation error.
pub fn generated_plan(generated: Option<(Vec<u8>, Vec<u8>)>) -> (r: Result<CertPlan, CertError>)
    ensures
        match generated {
            Some((c, k)) => r matches Ok(CertPlan::Generated { cert_der, key_der }) && cert_der@
                == c@ && key_der@ == k@,
            None => r == Err::<CertPlan, CertError>(CertError::GenerationFailed),
        },
{
    match generated {
        Some((cert_der, key_der)) => Ok(CertPlan::Generated { cert_der, key_der }),
        None => Err(CertError::GenerationFailed),
    }
}

/// Decides where the certificate comes from: the files when both paths are
/// given, a generated self-signed certificate for `localhost` when both are
/// empty (for testing only), and an error when only one of them is given.
pub fn resolve_cert_and_key(cert_path: &str, key_path: &str) -> (r: Result<CertPlan, CertError>)
    ensures
        cert_path@.len() > 0 && key_path@.len() > 0 <==> r matches Ok(CertPlan::ReadFiles),
        (cert_path@.len() == 0) != (key_path@.len() == 0) <==> r == Err::<CertPlan, CertError>(
            CertError::MissingCertOrKey,
        ),
        cert_path@.len() == 0 && key_path@.len() == 0 ==> (r matches Ok(
            CertPlan::Generated { cert_der, key_der },
        ) && cert_der@.len() > 0 && key_der@.len() > 0) || r == Err::<CertPlan, CertError>(
            CertError::GenerationFailed,
        ),
{
    let no_cert = cert_path.is_empty();
    let no_key = key_path.is_empty();
    if !no_cert && !no_key {
        Ok(CertPlan::ReadFiles)
    } else if no_cert != no_key {
        Err(CertError::MissingCertOrKey)
    } else {
        generated_plan(generate_self_signed(self_signed_names()))
    }
}

} // verus!
