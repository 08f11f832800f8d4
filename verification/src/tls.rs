//! Turning PEM files into the material and configuration of the TLS server.

use vstd::prelude::*;
use rustls::ServerConfig;

verus! {

/// `rustls::ServerConfig`, carried as an opaque value.
#[verifier::external_type_specification]
#[verifier::external_body]
pub struct ExServerConfig(ServerConfig);

/// `rustls::Error`, carried as an opaque value.
#[verifier::external_type_specification]
#[verifier::external_body]
pub struct ExTlsError(rustls::Error);

/// `std::io::Error`, carried as an opaque value.
#[verifier::external_type_specification]
#[verifier::external_body]
pub struct ExIoError(std::io::Error);

/// A TLS server configuration, with the DER certificate chain and DER
/// private key that it was built from.
pub struct TlsServerConfig {
    pub config: ServerConfig,
    pub chain: Ghost<Seq<Seq<u8>>>,
    pub key: Ghost<Seq<u8>>,
}

/// The DER certificates that `rustls_pemfile::certs` extracts from a PEM
/// text, in file order (`None` where it reports the text malformed).
pub uninterp spec fn pem_certificates(pem: Seq<u8>) -> Option<Seq<Seq<u8>>>;

/// The DER PKCS#8 private keys that `rustls_pemfile::pkcs8_private_keys`
/// extracts from a PEM text, in file order (`None` where it reports the text
/// malformed).
pub uninterp spec fn pem_pkcs8_keys(pem: Seq<u8>) -> Option<Seq<Seq<u8>>>;

/// Why the TLS server could not be configured.
#[derive(Debug)]
pub enum GatewayError {
    /// The certificate file is not well-formed PEM; the parser's explanation.
    MalformedCertificates(String),
    /// The private-key file is not well-formed PEM; the parser's explanation.
    MalformedPrivateKey(String),
    /// The private-key file holds no PKCS#8 private key.
    NoPrivateKey,
    /// rustls refused the certificate chain and key; its explanation.
    Tls(String),
}

/// Calls `rustls_pemfile::certs` on the bytes of a PEM text. Whether it
/// succeeds and what it extracts are a function of those bytes, named
/// `pem_certificates`. An empty text holds no sections, so it yields no
/// certificates.
#[verifier::external_body]
fn read_pem_certificates(pem: &[u8]) -> (certs: Result<Vec<Vec<u8>>, std::io::Error>)
    ensures
        match certs {
            Ok(c) => pem_certificates(pem@) == Some(c.deep_view()),
            Err(_) => pem_certificates(pem@) is None,
        },
        certs is Err ==> pem@.len() > 0,
        certs matches Ok(c) ==> (pem@.len() == 0 ==> c@.len() == 0),
{
    let mut reader = pem;
    rustls_pemfile::certs(&mut reader)
}

/// Calls `rustls_pemfile::pkcs8_private_keys` on the bytes of a PEM text.
/// Whether it succeeds and what it extracts are a function of those bytes,
/// named `pem_pkcs8_keys`. An empty text holds no sections, so it yields no
/// keys.
#[verifier::external_body]
fn read_pem_pkcs8_keys(pem: &[u8]) -> (keys: Result<Vec<Vec<u8>>, std::io::Error>)
    ensures
        match keys {
            Ok(k) => pem_pkcs8_keys(pem@) == Some(k.deep_view()),
            Err(_) => pem_pkcs8_keys(pem@) is None,
        },
        keys is Err ==> pem@.len() > 0,
        keys matches Ok(k) ==> (pem@.len() == 0 ==> k@.len() == 0),
{
    let mut reader = pem;
    rustls_pemfile::pkcs8_private_keys(&mut reader)
}

/// Calls the `Display` implementation of `std::io::Error`. Its text is not
/// stated.
#[verifier::external_body]
fn describe_io_error(error: &std::io::Error) -> (text: String) {
    format!("{}", error)
}

/// Calls `rustls::ServerConfig::builder`, then on that builder
/// `with_safe_defaults` (rustls's default cipher suites, key-exchange groups
/// and protocol versions), `with_no_client_auth` (clients are not asked for
/// certificates) and `with_single_cert` with the DER certificate chain and
/// DER private key, each wrapped in its rustls newtype. The builder's
/// intermediate types carry rustls's sealed `ConfigSide` bound and are not
/// declared here, so the chain stands in one item. Whether rustls accepts
/// the key is not stated: its ECDSA key parsing draws on the system's random
/// source. On success it returns the configuration with the chain and key
/// that it handed to rustls.
#[verifier::external_body]
fn build_server_config(certs: Vec<Vec<u8>>, key: Vec<u8>) -> (config: Result<TlsServerConfig, rustls::Error>)
    ensures
        config matches Ok(c) ==> c.chain@ == certs.deep_view() && c.key@ == key@,
{
    let chain_handed = Ghost(certs.deep_view());
    let key_handed = Ghost(key@);
    let chain = certs.into_iter().map(rustls::Certificate).collect();
    let config = ServerConfig::builder()
        .with_safe_defaults()
        .with_no_client_auth()
        .with_single_cert(chain, rustls::PrivateKey(key))?;
    Ok(TlsServerConfig { config, chain: chain_handed, key: key_handed })
}

/// Calls the `Display` implementation of `rustls::Error`. Its text is not stated.
#[verifier::external_body]
fn describe_tls_error(error: &rustls::Error) -> (text: String) {
    format!("{}", error)
}

/// The DER certificates of a PEM certificate file, in file order. A
/// malformed file is reported with the parser's explanation.
pub fn certificates_from_pem(pem: &[u8]) -> (certs: Result<Vec<Vec<u8>>, GatewayError>)
    ensures
        pem@.len() == 0 ==> (certs matches Ok(c) && c@.len() == 0),
        match pem_certificates(pem@) {
            Some(expected) => (certs matches Ok(c) && c.deep_view() == expected),
            None => (certs matches Err(e) && e is MalformedCertificates),
        },
{
    match read_pem_certificates(pem) {
        Ok(certs) => Ok(certs),
        Err(error) => Err(GatewayError::MalformedCertificates(describe_io_error(&error))),
    }
}

/// The first PKCS#8 private key of a PEM key file. A malformed file is
/// reported with the parser's explanation, and a file without such a key as
/// `NoPrivateKey`.
pub fn private_key_from_pem(pem: &[u8]) -> (key: Result<Vec<u8>, GatewayError>)
    ensures
        pem@.len() == 0 ==> key matches Err(GatewayError::NoPrivateKey),
        match pem_pkcs8_keys(pem@) {
            Some(keys) => if keys.len() == 0 {
                key matches Err(GatewayError::NoPrivateKey)
            } else {
                (key matches Ok(k) && k@ == keys[0])
            },
            None => (key matches Err(e) && e is MalformedPrivateKey),
        },
{
    match read_pem_pkcs8_keys(pem) {
        Ok(mut keys) => {
            if keys.len() == 0 {
                Err(GatewayError::NoPrivateKey)
            } else {
                let ghost all = keys.deep_view();
                let first = keys.remove(0);
                proof {
                    assert(all[0] == first.deep_view());
                    assert(first.deep_view() =~= first@);
                }
                Ok(first)
            }
        },
        Err(error) => Err(GatewayError::MalformedPrivateKey(describe_io_error(&error))),
    }
}

/// A TLS server configuration with safe defaults, no client authentication
/// and the given DER certificate chain and private key. It fails only where
/// rustls refuses them, with rustls's explanation.
pub fn server_config_from_der(certs: Vec<Vec<u8>>, key: Vec<u8>) -> (config: Result<TlsServerConfig, GatewayError>)
    ensures
        config matches Err(e) ==> e is Tls,
        config matches Ok(c) ==> c.chain@ == certs.deep_view() && c.key@ == key@,
{
    match build_server_config(certs, key) {
        Ok(config) => Ok(config),
        Err(error) => Err(GatewayError::Tls(describe_tls_error(&error))),
    }
}

} // verus!
