//! Transport security: settings, the acceptor built from them, and the
//! connections that a listener hands out.

use openssl::error::ErrorStack;
use tokio_openssl::SslStream;
use vstd::prelude::*;

pub mod incoming;
pub mod settings;

verus! {

/// An error stack of OpenSSL. Nothing is known of its contents.
#[verifier::external_type_specification]
#[verifier::external_body]
pub struct ExErrorStack(ErrorStack);

/// An error of OpenSSL's TLS layer. Nothing is known of its contents.
#[verifier::external_type_specification]
#[verifier::external_body]
pub struct ExSslError(openssl::ssl::Error);

/// An I/O error of the standard library. Nothing is known of its contents.
#[verifier::external_type_specification]
#[verifier::external_body]
pub struct ExIoError(std::io::Error);

/// A TLS stream over a transport `S`. Nothing is known of its contents.
#[verifier::external_type_specification]
#[verifier::external_body]
#[verifier::reject_recursive_types(S)]
pub struct ExSslStream<S>(SslStream<S>);

/// Either the plain form of a thing or its secured form.
pub enum MaybeTls<R, T> {
    Raw(R),
    Tls(T),
}

/// A byte stream that is either the plain transport or TLS over it.
pub type MaybeTlsStream<S> = MaybeTls<S, SslStream<S>>;

/// What can go wrong while transport security is set up or negotiated.
#[derive(Debug)]
#[allow(inconsistent_fields)]
pub enum TlsError {
    /// Security was asked for, but the settings hold no identity.
    MissingRequiredIdentity,
    /// The passphrase of the identity holds a NUL character.
    InvalidPassphrase,
    /// The identity archive holds no certificate.
    MissingCertificate,
    /// The identity archive holds no private key.
    MissingPrivateKey,
    /// The acceptor's context could not be created.
    CreateAcceptor { source: ErrorStack },
    /// The identity archive could not be read.
    ParsePkcs12 { source: ErrorStack },
    /// The certificate was refused by the context.
    SetCertificate { source: ErrorStack },
    /// The private key was refused by the context.
    SetPrivateKey { source: ErrorStack },
    /// A certificate of the chain was refused by the context.
    AddExtraChainCert { source: ErrorStack },
    /// The private key does not belong to the certificate of the context.
    CheckPrivateKey { source: ErrorStack },
    /// The listening endpoint could not be bound.
    TcpBind { source: std::io::Error },
    /// The listener failed to hand out the next connection.
    IncomingListener { source: std::io::Error },
    /// The per-connection TLS state could not be created.
    SslBuildError { source: ErrorStack },
    /// The handshake with the peer failed.
    Handshake { source: openssl::ssl::Error },
    /// The handshake with the peer failed earlier; this is what it said then.
    HandshakeFailed { message: String },
}

impl TlsError {
    /// Whether the error says that the security context could not be built
    /// from the material that the settings hold.
    pub open spec fn is_context_build_error(self) -> bool {
        self is InvalidPassphrase || self is MissingCertificate || self is MissingPrivateKey
            || self is CreateAcceptor || self is ParsePkcs12 || self is SetCertificate
            || self is SetPrivateKey || self is AddExtraChainCert || self is CheckPrivateKey
    }
}

/// The kinds of failure that a connection itself reports.
#[derive(Clone, Copy, Debug, PartialEq, Eq, Structural)]
pub enum IoFailureKind {
    /// The connection has no established stream.
    NotConnected,
    /// Any other failure; the message says which.
    Other,
}

/// A failure that a connection reports in place of an I/O result.
#[derive(Clone, Debug, PartialEq, Eq)]
pub struct IoFailure {
    pub kind: IoFailureKind,
    pub message: Option<String>,
}

/// The address of the peer of a connection, as the listener learned it.
#[derive(Clone, Copy, Debug, PartialEq, Eq, Structural)]
#[allow(inconsistent_fields)]
pub enum SocketAddress {
    V4 { ip: u32, port: u16 },
    V6 { ip: u128, port: u16, flowinfo: u32, scope_id: u32 },
}

} // verus!
