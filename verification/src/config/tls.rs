//! The TLS trust policy: the identity that the proxy presents to inbound
//! peers, and how far it verifies the servers it connects to.

use vstd::prelude::*;

verus! {

/// How an outbound TLS client treats the certificate that a server presents.
#[derive(Clone, Copy, Debug, PartialEq, Eq, Structural)]
pub enum VerificationMode {
    /// The certificate must chain to the public root-of-trust set.
    Strict,
    /// Any certificate is accepted. An explicit trust downgrade.
    Insecure,
}

/// The outbound TLS behaviour chosen by configuration.
pub struct ClientPolicy {
    pub verify: VerificationMode,
    /// The client configuration of this policy. In strict mode its root
    /// store holds the public roots. In insecure mode the store is empty,
    /// and the caller installs the verifier that follows `verify`.
    pub config: rustls::ClientConfig,
}

/// Why a server policy could not be built from the credential files.
#[derive(Clone, Copy, Debug, PartialEq, Eq, Structural)]
pub enum TlsConfigError {
    /// The certificate file is not well-formed PEM.
    CertLoadFailed,
    /// The key file is not well-formed PEM.
    KeyLoadFailed,
    /// The key file holds no PKCS#8 private key.
    KeyNotFound,
    /// The server configuration does not take the selected private key with
    /// the certificate chain.
    KeyMismatch,
}

/// The private key selected from a key file.
#[derive(Debug)]
pub struct LoadedKey {
    /// DER contents of the selected key.
    pub der: Vec<u8>,
    /// Number of further keys in the file that were passed over. A value
    /// above zero is an ambiguous configuration that deserves a warning.
    pub ignored: usize,
}

/// The identity that the proxy presents when it terminates TLS.
pub struct ServerPolicy {
    /// DER contents of each certificate of the chain, leaf first.
    pub cert_chain: Vec<Vec<u8>>,
    /// DER contents of the private key.
    pub key: Vec<u8>,
    /// Number of keys of the key file that were passed over.
    pub ignored_keys: usize,
    /// The server configuration that carries this identity.
    pub config: rustls::ServerConfig,
}

#[verifier::external_type_specification]
#[verifier::external_body]
pub struct ExServerConfig(rustls::ServerConfig);

#[verifier::external_type_specification]
#[verifier::external_body]
pub struct ExTlsError(rustls::TLSError);

#[verifier::external_type_specification]
#[verifier::external_body]
pub struct ExClientConfig(rustls::ClientConfig);

/// The subjects of the trust anchors in the root store of a client
/// configuration, in the order in which they were added.
pub uninterp spec fn trust_anchors(config: rustls::ClientConfig) -> Seq<Seq<u8>>;

/// The DER blocks of the `CERTIFICATE` sections of a PEM text, in file
/// order, or `None` where a section does not decode.
pub uninterp spec fn pem_certificates(pem: Seq<u8>) -> Option<Seq<Seq<u8>>>;

/// The DER blocks of the `PRIVATE KEY` sections of a PEM text, in file
/// order, or `None` where a section does not decode.
pub uninterp spec fn pem_pkcs8_keys(pem: Seq<u8>) -> Option<Seq<Seq<u8>>>;

/// Whether a server configuration takes the given chain and private key as
/// its single certificate.
pub uninterp spec fn single_cert_accepted(chain: Seq<Seq<u8>>, key: Seq<u8>) -> bool;

/// The contents of a list of byte blocks.
pub open spec fn blocks(list: Seq<Vec<u8>>) -> Seq<Seq<u8>> {
    Seq::new(list.len(), |i: int| list[i]@)
}

/// The contents of an optional list of byte blocks.
pub open spec fn optional_blocks(list: Option<Vec<Vec<u8>>>) -> Option<Seq<Seq<u8>>> {
    match list {
        Some(l) => Some(blocks(l@)),
        None => None,
    }
}

/// Calls `rustls::internal::pemfile::certs` on an in-memory reader over
/// `pem`. Trusted: the result is the named function `pem_certificates` of
/// the bytes, with each certificate given as its DER contents.
#[verifier::external_body]
fn parse_pem_certificates(pem: &[u8]) -> (r: Option<Vec<Vec<u8>>>)
    ensures
        optional_blocks(r) == pem_certificates(pem@),
{
    let mut reader: &[u8] = pem;
    match rustls::internal::pemfile::certs(&mut reader) {
        Ok(certs) => Some(certs.into_iter().map(|c| c.0).collect()),
        Err(_) => None,
    }
}

/// Calls `rustls::internal::pemfile::pkcs8_private_keys` on an in-memory
/// reader over `pem`. Trusted: the result is the named function
/// `pem_pkcs8_keys` of the bytes, with each key given as its DER contents.
#[verifier::external_body]
fn parse_pem_pkcs8_keys(pem: &[u8]) -> (r: Option<Vec<Vec<u8>>>)
    ensures
        optional_blocks(r) == pem_pkcs8_keys(pem@),
{
    let mut reader: &[u8] = pem;
    match rustls::internal::pemfile::pkcs8_private_keys(&mut reader) {
        Ok(keys) => Some(keys.into_iter().map(|k| k.0).collect()),
        Err(_) => None,
    }
}

/// Calls `rustls::ClientConfig::new`. Trusted: the root store of the new
/// configuration is empty.
#[verifier::external_body]
fn new_client_config() -> (r: rustls::ClientConfig)
    ensures
        trust_anchors(r).len() == 0,
{
    rustls::ClientConfig::new()
}

/// Calls `RootCertStore::add_server_trust_anchors` on the root store of the
/// configuration, with `webpki_roots::TLS_SERVER_ROOTS`. Trusted: the anchors
/// that were there stay in place, and at least one is added behind them.
#[verifier::external_body]
fn add_public_roots(config: &mut rustls::ClientConfig)
    ensures
        trust_anchors(*old(config)).is_prefix_of(trust_anchors(*final(config))),
        trust_anchors(*final(config)).len() > trust_anchors(*old(config)).len(),
{
    config.root_store.add_server_trust_anchors(&webpki_roots::TLS_SERVER_ROOTS);
}

/// Calls `RootCertStore::len` on the root store of the configuration.
/// Trusted: the result is the number of its trust anchors.
#[verifier::external_body]
fn count_trust_anchors(config: &rustls::ClientConfig) -> (r: usize)
    ensures
        r == trust_anchors(*config).len(),
{
    config.root_store.len()
}

/// Makes a `rustls::ServerConfig` without client authentication and calls
/// `ServerConfig::set_single_cert` on it. Trusted: the call succeeds exactly
/// when `single_cert_accepted` holds of the chain and the key.
#[verifier::external_body]
fn server_config_with_cert(chain: &Vec<Vec<u8>>, key: &Vec<u8>) -> (r: Result<
    rustls::ServerConfig,
    rustls::TLSError,
>)
    ensures
        r is Ok <==> single_cert_accepted(blocks(chain@), key@),
{
    let certs = chain.iter().map(|c| rustls::Certificate(c.clone())).collect();
    let mut config = rustls::ServerConfig::new(rustls::NoClientAuth::new());
    match config.set_single_cert(certs, rustls::PrivateKey(key.clone())) {
        Ok(_) => Ok(config),
        Err(e) => Err(e),
    }
}

/// The verification mode that the two configuration flags select: none
/// without TLS, the insecure mode only where it was asked for.
pub open spec fn verification_for(tls: bool, insecure: bool) -> Option<VerificationMode> {
    if !tls {
        None
    } else if insecure {
        Some(VerificationMode::Insecure)
    } else {
        Some(VerificationMode::Strict)
    }
}

/// Whether a mode accepts a server whose certificate does or does not chain
/// to the trusted root set.
pub open spec fn mode_accepts(verify: VerificationMode, chains_to_trusted_root: bool) -> bool {
    match verify {
        VerificationMode::Strict => chains_to_trusted_root,
        VerificationMode::Insecure => true,
    }
}

/// The verification mode of an optional client policy.
pub open spec fn policy_mode(policy: Option<ClientPolicy>) -> Option<VerificationMode> {
    match policy {
        Some(p) => Some(p.verify),
        None => None,
    }
}

impl VerificationMode {
    /// Decides whether to go on with a server, given whether its certificate
    /// chains to the trusted root set.
    pub fn accepts(&self, chains_to_trusted_root: bool) -> (r: bool)
        ensures
            r == mode_accepts(*self, chains_to_trusted_root),
    {
        match self {
            VerificationMode::Strict => chains_to_trusted_root,
            VerificationMode::Insecure => true,
        }
    }

    /// Whether the mode is the explicit trust downgrade, which is to be
    /// logged as a security-relevant choice.
    pub fn is_trust_downgrade(&self) -> (r: bool)
        ensures
            r == (*self == VerificationMode::Insecure),
    {
        match self {
            VerificationMode::Insecure => true,
            VerificationMode::Strict => false,
        }
    }
}

impl ClientPolicy {
    /// A policy is well-formed when strict verification has roots to verify
    /// against and the insecure mode has none.
    pub open spec fn wf(&self) -> bool {
        match self.verify {
            VerificationMode::Strict => trust_anchors(self.config).len() > 0,
            VerificationMode::Insecure => trust_anchors(self.config).len() == 0,
        }
    }

    /// The number of roots that the policy verifies against.
    pub fn trusted_roots(&self) -> (r: usize)
        ensures
            r == trust_anchors(self.config).len(),
    {
        count_trust_anchors(&self.config)
    }
}

impl ServerPolicy {
    /// Whether the key file held more than one key, so that the choice of
    /// the first deserves a warning.
    pub fn has_ignored_keys(&self) -> (r: bool)
        ensures
            r == (self.ignored_keys > 0),
    {
        self.ignored_keys > 0
    }
}

/// Selects the outbound TLS behaviour: none where TLS is disabled, the
/// insecure mode only where it was asked for, and otherwise strict
/// verification against the public roots.
pub fn get_client_config(tls: bool, insecure: bool) -> (r: Option<ClientPolicy>)
    ensures
        policy_mode(r) == verification_for(tls, insecure),
        r matches Some(p) ==> p.wf(),
{
    if !tls {
        None
    } else if insecure {
        Some(ClientPolicy { verify: VerificationMode::Insecure, config: new_client_config() })
    } else {
        let mut config = new_client_config();
        add_public_roots(&mut config);
        Some(ClientPolicy { verify: VerificationMode::Strict, config })
    }
}

/// With TLS enabled, a certificate that does not chain to the trusted roots
/// is refused unless the insecure mode was configured, and is accepted when
/// it was.
pub proof fn untrusted_certificate_needs_insecure(insecure: bool)
    ensures
        verification_for(true, insecure) is Some,
        mode_accepts(verification_for(true, insecure).unwrap(), false) == insecure,
        mode_accepts(verification_for(true, insecure).unwrap(), true),
{
}

/// The outcome of loading a certificate chain from parsed PEM sections.
pub open spec fn certs_outcome(parsed: Option<Seq<Seq<u8>>>) -> Result<
    Seq<Seq<u8>>,
    TlsConfigError,
> {
    match parsed {
        Some(chain) => Ok(chain),
        None => Err(TlsConfigError::CertLoadFailed),
    }
}

/// The outcome of selecting a private key from parsed PEM sections: the
/// first key and the number of keys after it.
pub open spec fn key_outcome(parsed: Option<Seq<Seq<u8>>>) -> Result<
    (Seq<u8>, nat),
    TlsConfigError,
> {
    match parsed {
        None => Err(TlsConfigError::KeyLoadFailed),
        Some(keys) => if keys.len() == 0 {
            Err(TlsConfigError::KeyNotFound)
        } else {
            Ok((keys[0], (keys.len() - 1) as nat))
        },
    }
}

/// What a key selection result holds, as plain values.
pub open spec fn loaded_key_view(r: Result<LoadedKey, TlsConfigError>) -> Result<
    (Seq<u8>, nat),
    TlsConfigError,
> {
    match r {
        Ok(k) => Ok((k.der@, k.ignored as nat)),
        Err(e) => Err(e),
    }
}

/// What a certificate loading result holds, as plain values.
pub open spec fn loaded_certs_view(r: Result<Vec<Vec<u8>>, TlsConfigError>) -> Result<
    Seq<Seq<u8>>,
    TlsConfigError,
> {
    match r {
        Ok(c) => Ok(blocks(c@)),
        Err(e) => Err(e),
    }
}

/// Turns the parsed certificate sections into a chain, or reports that the
/// file did not parse.
pub fn select_certs(parsed: Option<Vec<Vec<u8>>>) -> (r: Result<Vec<Vec<u8>>, TlsConfigError>)
    ensures
        loaded_certs_view(r) == certs_outcome(optional_blocks(parsed)),
{
    match parsed {
        Some(chain) => Ok(chain),
        None => Err(TlsConfigError::CertLoadFailed),
    }
}

/// Selects the private key among the parsed key sections: none is an error,
/// one is used, and of several the first in file order is used while the
/// rest are counted as ignored.
pub fn select_private_key(parsed: Option<Vec<Vec<u8>>>) -> (r: Result<LoadedKey, TlsConfigError>)
    ensures
        loaded_key_view(r) == key_outcome(optional_blocks(parsed)),
{
    match parsed {
        None => Err(TlsConfigError::KeyLoadFailed),
        Some(keys) => {
            let mut keys = keys;
            let count: usize = keys.len();
            if count == 0 {
                Err(TlsConfigError::KeyNotFound)
            } else {
                let first = keys.remove(0);
                Ok(LoadedKey { der: first, ignored: count - 1 })
            }
        },
    }
}

/// Reads the certificate chain out of the contents of a PEM file.
pub fn load_certs(pem: &[u8]) -> (r: Result<Vec<Vec<u8>>, TlsConfigError>)
    ensures
        loaded_certs_view(r) == certs_outcome(pem_certificates(pem@)),
{
    select_certs(parse_pem_certificates(pem))
}

/// Reads the private key out of the contents of a PEM file of PKCS#8 keys.
pub fn load_private_key(pem: &[u8]) -> (r: Result<LoadedKey, TlsConfigError>)
    ensures
        loaded_key_view(r) == key_outcome(pem_pkcs8_keys(pem@)),
{
    select_private_key(parse_pem_pkcs8_keys(pem))
}

/// The identity that a server policy result carries, as plain values: the
/// chain, the key and the number of ignored keys.
pub open spec fn server_policy_view(r: Result<ServerPolicy, TlsConfigError>) -> Result<
    (Seq<Seq<u8>>, Seq<u8>, nat),
    TlsConfigError,
> {
    match r {
        Ok(p) => Ok((blocks(p.cert_chain@), p.key@, p.ignored_keys as nat)),
        Err(e) => Err(e),
    }
}

/// The outcome of installing a chain and a selected key in a server
/// configuration that did or did not take them.
pub open spec fn installed_outcome(
    chain: Seq<Seq<u8>>,
    key: Seq<u8>,
    ignored: nat,
    accepted: bool,
) -> Result<(Seq<Seq<u8>>, Seq<u8>, nat), TlsConfigError> {
    if accepted {
        Ok((chain, key, ignored))
    } else {
        Err(TlsConfigError::KeyMismatch)
    }
}

/// The outcome of building a server policy from the contents of the two
/// credential files. The certificate file is judged first, then the key
/// file, then whether a server configuration takes the pair.
pub open spec fn server_policy_outcome(cert_pem: Seq<u8>, key_pem: Seq<u8>) -> Result<
    (Seq<Seq<u8>>, Seq<u8>, nat),
    TlsConfigError,
> {
    match certs_outcome(pem_certificates(cert_pem)) {
        Err(e) => Err(e),
        Ok(chain) => match key_outcome(pem_pkcs8_keys(key_pem)) {
            Err(e) => Err(e),
            Ok((key, ignored)) => installed_outcome(
                chain,
                key,
                ignored,
                single_cert_accepted(chain, key),
            ),
        },
    }
}

/// Completes a server policy from a chain, a selected key and the result of
/// installing both in a server configuration.
pub fn finish_server_policy(
    chain: Vec<Vec<u8>>,
    key: LoadedKey,
    installed: Result<rustls::ServerConfig, rustls::TLSError>,
) -> (r: Result<ServerPolicy, TlsConfigError>)
    ensures
        server_policy_view(r) == installed_outcome(
            blocks(chain@),
            key.der@,
            key.ignored as nat,
            installed is Ok,
        ),
        r is Ok ==> r.unwrap().config == installed.unwrap(),
{
    match installed {
        Ok(config) => Ok(
            ServerPolicy { cert_chain: chain, key: key.der, ignored_keys: key.ignored, config },
        ),
        Err(_) => Err(TlsConfigError::KeyMismatch),
    }
}

/// Builds the inbound TLS identity from the contents of the certificate file
/// and of the key file.
pub fn get_tls_config(cert_pem: &[u8], key_pem: &[u8]) -> (r: Result<ServerPolicy, TlsConfigError>)
    ensures
        server_policy_view(r) == server_policy_outcome(cert_pem@, key_pem@),
{
    let chain = match load_certs(cert_pem) {
        Ok(chain) => chain,
        Err(e) => { return Err(e); },
    };
    let key = match load_private_key(key_pem) {
        Ok(key) => key,
        Err(e) => { return Err(e); },
    };
    let installed = server_config_with_cert(&chain, &key.der);
    finish_server_policy(chain, key, installed)
}

/// A key file with exactly one private key never fails for want of a key and
/// has nothing ignored; one with none fails with `KeyNotFound`; one with
/// several selects the first in file order and counts the others.
pub proof fn key_selection_by_count(keys: Seq<Seq<u8>>)
    ensures
        keys.len() == 0 ==> key_outcome(Some(keys)) == Err::<(Seq<u8>, nat), _>(
            TlsConfigError::KeyNotFound,
        ),
        keys.len() == 1 ==> key_outcome(Some(keys)) == Ok::<_, TlsConfigError>((keys[0], 0nat)),
        keys.len() > 1 ==> key_outcome(Some(keys)) == Ok::<_, TlsConfigError>(
            (keys[0], (keys.len() - 1) as nat),
        ),
{
}

/// With a certificate file that parses, the number of keys in the key file
/// decides as follows: none fails with `KeyNotFound`; one or more use the
/// first in file order and count the rest as ignored, and the policy is
/// built exactly when the server configuration takes the chain with that
/// key.
pub proof fn server_policy_by_key_count(cert_pem: Seq<u8>, key_pem: Seq<u8>)
    requires
        pem_certificates(cert_pem) is Some,
        pem_pkcs8_keys(key_pem) is Some,
    ensures
        ({
            let chain = pem_certificates(cert_pem).unwrap();
            let keys = pem_pkcs8_keys(key_pem).unwrap();
            let outcome = server_policy_outcome(cert_pem, key_pem);
            &&& keys.len() == 0 ==> outcome == Err::<(Seq<Seq<u8>>, Seq<u8>, nat), _>(
                TlsConfigError::KeyNotFound,
            )
            &&& (keys.len() >= 1 && single_cert_accepted(chain, keys[0])) ==> outcome == Ok::<
                _,
                TlsConfigError,
            >((chain, keys[0], (keys.len() - 1) as nat))
            &&& (keys.len() >= 1 && !single_cert_accepted(chain, keys[0])) ==> outcome == Err::<
                (Seq<Seq<u8>>, Seq<u8>, nat),
                _,
            >(TlsConfigError::KeyMismatch)
        }),
{
}

} // verus!
