//! What a listener is told about transport security, and the calls into
//! OpenSSL that turn it into an acceptor.

use super::MaybeTls;
use openssl::error::ErrorStack;
use openssl::pkcs12::Pkcs12;
use openssl::pkey::{PKey, Private};
use openssl::ssl::{SslAcceptor, SslAcceptorBuilder, SslMethod, SslVerifyMode};
use openssl::x509::X509;
use vstd::prelude::*;

verus! {

/// The server-side security context of OpenSSL. Nothing is known of its
/// contents; it is built once and then only handed on.
#[verifier::external_type_specification]
#[verifier::external_body]
pub struct ExSslAcceptor(SslAcceptor);

/// An acceptor that is still being configured.
#[verifier::external_type_specification]
#[verifier::external_body]
pub struct ExSslAcceptorBuilder(SslAcceptorBuilder);

/// A PKCS #12 archive, decoded but not yet opened.
#[verifier::external_type_specification]
#[verifier::external_body]
pub struct ExPkcs12(Pkcs12);

/// An X.509 certificate.
#[verifier::external_type_specification]
#[verifier::external_body]
pub struct ExX509(X509);

/// A key; `T` says which halves of it are present.
#[verifier::external_type_specification]
#[verifier::external_body]
#[verifier::reject_recursive_types(T)]
pub struct ExPKey<T>(PKey<T>);

/// The tag of a key that has its private half.
#[verifier::external_type_specification]
#[verifier::external_body]
pub struct ExPrivate(Private);

/// The transport-security options of a component, as its configuration gives
/// them: the peer-verification toggles and where the material is.
pub struct TlsOptions {
    pub verify_certificate: Option<bool>,
    pub verify_hostname: Option<bool>,
    pub ca_file: Option<String>,
    pub crt_file: Option<String>,
    pub key_file: Option<String>,
    pub key_pass: Option<String>,
}

/// The options together with the switch that turns security on.
pub struct TlsConfig {
    pub enabled: Option<bool>,
    pub options: TlsOptions,
}

/// A copy of a text that may be absent.
fn clone_text(text: &Option<String>) -> (copy: Option<String>)
    ensures
        copy == *text,
{
    match text {
        Some(text) => Some(text.clone()),
        None => None,
    }
}

impl Clone for TlsOptions {
    fn clone(&self) -> (copy: Self)
        ensures
            copy == *self,
    {
        TlsOptions {
            verify_certificate: self.verify_certificate,
            verify_hostname: self.verify_hostname,
            ca_file: clone_text(&self.ca_file),
            crt_file: clone_text(&self.crt_file),
            key_file: clone_text(&self.key_file),
            key_pass: clone_text(&self.key_pass),
        }
    }
}

impl Clone for TlsConfig {
    fn clone(&self) -> (copy: Self)
        ensures
            copy == *self,
    {
        TlsConfig { enabled: self.enabled, options: self.options.clone() }
    }
}

/// A certificate and its private key: a PKCS #12 archive in DER form and the
/// passphrase that opens it.
pub struct IdentityStore {
    pub der: Vec<u8>,
    pub passphrase: String,
}

/// Resolved transport-security parameters.
pub struct TlsSettings {
    /// Whether the peer must present a certificate that verifies.
    pub verify_certificate: bool,
    /// The certificate and key that the listener presents.
    pub identity: Option<IdentityStore>,
}

/// Transport security switched off, or switched on with its settings.
pub type MaybeTlsSettings = MaybeTls<(), TlsSettings>;

/// What the security context of an acceptor holds, as OpenSSL reports it:
/// the two flags of peer verification (`PEER`, `FAIL_IF_NO_PEER_CERT`), the
/// certificate and the private key that it presents, the certificates that
/// are sent along with the leaf, in their order, and whether the private key
/// is consistent with the certificate.
pub struct AcceptorSetup {
    pub verify: (bool, bool),
    pub certificate: Option<X509>,
    pub key: Option<PKey<Private>>,
    pub chain: Seq<X509>,
    pub consistent: bool,
}

/// What the context of an acceptor that is being configured holds.
pub uninterp spec fn builder_setup(builder: SslAcceptorBuilder) -> AcceptorSetup;

/// What the context of a finished acceptor holds.
pub uninterp spec fn acceptor_setup(acceptor: SslAcceptor) -> AcceptorSetup;

/// What an identity archive held.
pub struct ParsedIdentity {
    pub key: Option<PKey<Private>>,
    pub certificate: Option<X509>,
    /// The other certificates of the archive, in the order in which OpenSSL
    /// hands them out.
    pub chain: Vec<X509>,
}

/// An identity that a listener can present: the leaf certificate, its private
/// key, and the certificates that are sent along with the leaf, in that order.
pub struct Identity {
    pub certificate: X509,
    pub key: PKey<Private>,
    pub chain: Vec<X509>,
}

impl ParsedIdentity {
    /// The identity that the archive gives, if it held both a leaf
    /// certificate and a key: a missing certificate is reported first.
    pub open spec fn spec_complete(self) -> Result<Identity, crate::tls::TlsError> {
        match (self.certificate, self.key) {
            (None, _) => Err(crate::tls::TlsError::MissingCertificate),
            (Some(_), None) => Err(crate::tls::TlsError::MissingPrivateKey),
            (Some(certificate), Some(key)) => Ok(Identity { certificate, key, chain: self.chain }),
        }
    }

    /// The identity that the archive gives, or what it lacks.
    pub fn complete(self) -> (identity: Result<Identity, crate::tls::TlsError>)
        ensures
            identity == self.spec_complete(),
    {
        let certificate = match self.certificate {
            Some(certificate) => certificate,
            None => {
                return Err(crate::tls::TlsError::MissingCertificate);
            },
        };
        let key = match self.key {
            Some(key) => key,
            None => {
                return Err(crate::tls::TlsError::MissingPrivateKey);
            },
        };
        Ok(Identity { certificate, key, chain: self.chain })
    }
}

impl Identity {
    /// Whether a context that held `before` holds `after` once the identity
    /// is installed in it: the flags are as they were, the key is this key
    /// and consistent with the certificate of the context, and the chain is
    /// what it was, followed by this chain in its order.
    pub open spec fn installs(self, before: AcceptorSetup, after: AcceptorSetup) -> bool {
        &&& after.verify == before.verify
        &&& after.key == Some(self.key)
        &&& after.chain == before.chain + self.chain@
        &&& after.consistent
    }

    /// Installs the identity in an acceptor that is being configured: first
    /// the leaf certificate, then its private key, then the certificates of
    /// the chain from the first to the last; at the end OpenSSL is asked
    /// whether the key and the certificate that it holds belong together.
    ///
    /// OpenSSL may refuse each of them; the error says which step it was. When
    /// none is refused the context holds what `installs` says.
    pub fn install(self, builder: &mut SslAcceptorBuilder) -> (done: Result<
        (),
        crate::tls::TlsError,
    >)
        ensures
            done is Ok ==> self.installs(
                builder_setup(*old(builder)),
                builder_setup(*final(builder)),
            ),
            done matches Err(e) ==> e is SetCertificate || e is SetPrivateKey
                || e is AddExtraChainCert || e is CheckPrivateKey,
    {
        let ghost before = builder_setup(*builder);
        let Identity { certificate, key, chain } = self;
        match set_certificate(builder, &certificate) {
            Ok(()) => {},
            Err(source) => {
                return Err(crate::tls::TlsError::SetCertificate { source });
            },
        }
        match set_private_key(builder, &key) {
            Ok(()) => {},
            Err(source) => {
                return Err(crate::tls::TlsError::SetPrivateKey { source });
            },
        }
        let ghost all = chain@;
        let mut chain = chain;
        while chain.len() > 0
            invariant
                chain@.len() <= all.len(),
                chain@ == all.skip(all.len() - chain@.len()),
                builder_setup(*builder).verify == before.verify,
                builder_setup(*builder).key == Some(key),
                builder_setup(*builder).chain == before.chain + all.take(
                    all.len() - chain@.len(),
                ),
            decreases chain.len(),
        {
            let ghost installed = all.len() - chain@.len();
            let next = chain.remove(0);
            match add_extra_chain_cert(builder, next) {
                Ok(()) => {},
                Err(source) => {
                    return Err(crate::tls::TlsError::AddExtraChainCert { source });
                },
            }
            proof {
                assert(next == all[installed]);
                assert(chain@ =~= all.skip(installed + 1));
                assert((before.chain + all.take(installed)).push(next) =~= before.chain + all.take(
                    installed + 1,
                ));
            }
        }
        proof {
            assert(all.take(all.len() as int) =~= all);
        }
        match check_private_key(builder) {
            Ok(()) => Ok(()),
            Err(source) => Err(crate::tls::TlsError::CheckPrivateKey { source }),
        }
    }
}

/// Whether `text` holds a NUL character.
pub open spec fn has_nul(text: Seq<char>) -> bool {
    text.contains('\0')
}

/// Tells whether `text` holds a NUL character.
pub fn contains_nul(text: &str) -> (found: bool)
    ensures
        found == has_nul(text@),
{
    let len: usize = text.unicode_len();
    let mut i: usize = 0;
    while i < len
        invariant
            len == text@.len(),
            i <= len,
            forall|j: int| 0 <= j < i ==> text@[j] != '\0',
        decreases len - i,
    {
        if text.get_char(i) == '\0' {
            return true;
        }
        i = i + 1;
    }
    false
}

/// `SslAcceptor::mozilla_intermediate` of OpenSSL, for `SslMethod::tls()`: a
/// builder with the intermediate server profile, or the error stack.
#[verifier::external_body]
pub(crate) fn new_acceptor_builder() -> (builder: Result<SslAcceptorBuilder, ErrorStack>) {
    SslAcceptor::mozilla_intermediate(SslMethod::tls())
}

/// `SslContextBuilder::set_verify` of OpenSSL, with the mode made of the two
/// flags `PEER` and `FAIL_IF_NO_PEER_CERT`, each set as its argument says.
/// The context then holds these flags.
#[verifier::external_body]
pub(crate) fn set_verify(builder: &mut SslAcceptorBuilder, peer: bool, fail_if_no_peer_cert: bool)
    ensures
        builder_setup(*final(builder)).verify == (peer, fail_if_no_peer_cert),
{
    let mut mode = SslVerifyMode::NONE;
    mode.set(SslVerifyMode::PEER, peer);
    mode.set(SslVerifyMode::FAIL_IF_NO_PEER_CERT, fail_if_no_peer_cert);
    builder.set_verify(mode);
}

/// `Pkcs12::from_der` of OpenSSL: the decoded archive, or the error stack.
#[verifier::external_body]
pub(crate) fn pkcs12_from_der(der: &[u8]) -> (archive: Result<Pkcs12, ErrorStack>) {
    Pkcs12::from_der(der)
}

/// `Pkcs12Ref::parse2` of OpenSSL: the key, the leaf certificate and the other
/// certificates that the archive holds, or the error stack. The call aborts on
/// a passphrase with a NUL character, so none is admitted.
#[verifier::external_body]
pub(crate) fn pkcs12_parse(archive: &Pkcs12, passphrase: &str) -> (parsed: Result<
    ParsedIdentity,
    ErrorStack,
>)
    requires
        !has_nul(passphrase@),
{
    match archive.parse2(passphrase) {
        Ok(parsed) => Ok(
            ParsedIdentity {
                key: parsed.pkey,
                certificate: parsed.cert,
                chain: parsed.ca.into_iter().flatten().collect(),
            },
        ),
        Err(stack) => Err(stack),
    }
}

/// `SslContextBuilder::set_certificate` of OpenSSL: sets the leaf certificate.
/// Where it succeeds the context holds this certificate; its flags and its
/// chain are as before. Nothing is claimed of the key, nor of a call that
/// fails.
#[verifier::external_body]
pub(crate) fn set_certificate(builder: &mut SslAcceptorBuilder, certificate: &X509) -> (done:
    Result<(), ErrorStack>)
    ensures
        done is Ok ==> builder_setup(*final(builder)).certificate == Some(*certificate),
        done is Ok ==> builder_setup(*final(builder)).verify == builder_setup(*old(builder)).verify,
        done is Ok ==> builder_setup(*final(builder)).chain == builder_setup(*old(builder)).chain,
{
    builder.set_certificate(certificate)
}

/// `SslContextBuilder::set_private_key` of OpenSSL: sets the private key.
/// Where it succeeds the context holds this key; its flags and its chain are
/// as before. Nothing is claimed of the certificate, nor of a call that fails.
#[verifier::external_body]
pub(crate) fn set_private_key(builder: &mut SslAcceptorBuilder, key: &PKey<Private>) -> (done:
    Result<(), ErrorStack>)
    ensures
        done is Ok ==> builder_setup(*final(builder)).key == Some(*key),
        done is Ok ==> builder_setup(*final(builder)).verify == builder_setup(*old(builder)).verify,
        done is Ok ==> builder_setup(*final(builder)).chain == builder_setup(*old(builder)).chain,
{
    builder.set_private_key(key)
}

/// `SslContextBuilder::add_extra_chain_cert` of OpenSSL: appends a certificate
/// to the chain that is sent with the leaf. Where it succeeds the certificate
/// stands at the end of the chain; the flags and the key are as before.
/// Nothing is claimed of a call that fails.
#[verifier::external_body]
pub(crate) fn add_extra_chain_cert(builder: &mut SslAcceptorBuilder, certificate: X509) -> (done:
    Result<(), ErrorStack>)
    ensures
        done is Ok ==> builder_setup(*final(builder)).chain == builder_setup(
            *old(builder),
        ).chain.push(certificate),
        done is Ok ==> builder_setup(*final(builder)).verify == builder_setup(*old(builder)).verify,
        done is Ok ==> builder_setup(*final(builder)).key == builder_setup(*old(builder)).key,
{
    builder.add_extra_chain_cert(certificate)
}

/// `SslContextBuilder::check_private_key` of OpenSSL: checks for consistency
/// between the private key and the certificate of the context. Where it
/// succeeds they are consistent.
#[verifier::external_body]
pub(crate) fn check_private_key(builder: &SslAcceptorBuilder) -> (done: Result<(), ErrorStack>)
    ensures
        done is Ok ==> builder_setup(*builder).consistent,
{
    builder.check_private_key()
}

/// `SslAcceptorBuilder::build` of OpenSSL: the finished acceptor, whose
/// context is the one that was configured.
#[verifier::external_body]
pub(crate) fn build_acceptor(builder: SslAcceptorBuilder) -> (acceptor: SslAcceptor)
    ensures
        acceptor_setup(acceptor) == builder_setup(builder),
{
    builder.build()
}

/// `Clone::clone` of OpenSSL's `SslAcceptor`: another handle to the same
/// context, which is counted, not copied.
#[verifier::external_body]
pub(crate) fn clone_acceptor(acceptor: &SslAcceptor) -> (copy: SslAcceptor)
    ensures
        copy == *acceptor,
{
    acceptor.clone()
}

} // verus!
