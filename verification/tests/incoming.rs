use futures::executor::block_on;
use futures::future::join;
use futures::task::noop_waker;
use openssl::asn1::Asn1Time;
use openssl::bn::BigNum;
use openssl::ec::{EcGroup, EcKey};
use openssl::hash::MessageDigest;
use openssl::nid::Nid;
use openssl::pkcs12::Pkcs12;
use openssl::pkey::{PKey, Private};
use openssl::rsa::Rsa;
use openssl::ssl::{Ssl, SslAcceptor, SslConnector, SslMethod, SslVerifyMode};
use openssl::stack::Stack;
use openssl::x509::{X509NameBuilder, X509};
use std::cell::Cell;
use std::future::Future;
use std::io;
use std::pin::Pin;
use std::task::{Context, Poll};
use tokio::io::{duplex, AsyncRead, AsyncReadExt, AsyncWrite, AsyncWriteExt, DuplexStream, ReadBuf};
use tokio_openssl::SslStream;
use vector::tcp::TcpKeepaliveConfig;
use vector::tls::incoming::{
    HandshakeOutcome, HandshakeStep, IoAction, MaybeTlsIncomingStream, MaybeTlsListener,
};
use vector::tls::settings::{
    contains_nul, Identity, IdentityStore, MaybeTlsSettings, ParsedIdentity, TlsSettings,
};
use vector::tls::{IoFailure, IoFailureKind, MaybeTls, SocketAddress, TlsError};

type Handshake = Pin<Box<dyn Future<Output = Result<SslStream<DuplexStream>, String>>>>;

type Connection = MaybeTlsIncomingStream<DuplexStream, Handshake>;

const PEER: SocketAddress = SocketAddress::V4 { ip: 0x7f00_0001, port: 40123 };

const PASSPHRASE: &str = "open sesame";

fn start(acceptor: SslAcceptor, stream: DuplexStream) -> Handshake {
    Box::pin(async move {
        let ssl = Ssl::new(acceptor.context()).map_err(|e| e.to_string())?;
        let mut stream = SslStream::new(ssl, stream).map_err(|e| e.to_string())?;
        Pin::new(&mut stream)
            .accept()
            .await
            .map_err(|e| format!("TLS handshake failed: {}", e))?;
        Ok(stream)
    })
}

fn never_started(_: SslAcceptor, _: DuplexStream) -> Handshake {
    unreachable!("a connection without security starts no handshake")
}

fn self_signed() -> (PKey<Private>, X509) {
    let key = PKey::from_rsa(Rsa::generate(2048).unwrap()).unwrap();
    let mut name = X509NameBuilder::new().unwrap();
    name.append_entry_by_text("CN", "localhost").unwrap();
    let name = name.build();
    let mut builder = X509::builder().unwrap();
    builder.set_version(2).unwrap();
    let serial = BigNum::from_u32(1).unwrap().to_asn1_integer().unwrap();
    builder.set_serial_number(&serial).unwrap();
    builder.set_subject_name(&name).unwrap();
    builder.set_issuer_name(&name).unwrap();
    builder.set_pubkey(&key).unwrap();
    builder.set_not_before(&Asn1Time::days_from_now(0).unwrap()).unwrap();
    builder.set_not_after(&Asn1Time::days_from_now(30).unwrap()).unwrap();
    builder.sign(&key, MessageDigest::sha256()).unwrap();
    (key, builder.build())
}

fn signed_by(issuer_key: &PKey<Private>, issuer: &X509, common_name: &str) -> (PKey<Private>, X509) {
    let key = PKey::from_rsa(Rsa::generate(2048).unwrap()).unwrap();
    let mut name = X509NameBuilder::new().unwrap();
    name.append_entry_by_text("CN", common_name).unwrap();
    let name = name.build();
    let mut builder = X509::builder().unwrap();
    builder.set_version(2).unwrap();
    let serial = BigNum::from_u32(2).unwrap().to_asn1_integer().unwrap();
    builder.set_serial_number(&serial).unwrap();
    builder.set_subject_name(&name).unwrap();
    builder.set_issuer_name(issuer.subject_name()).unwrap();
    builder.set_pubkey(&key).unwrap();
    builder.set_not_before(&Asn1Time::days_from_now(0).unwrap()).unwrap();
    builder.set_not_after(&Asn1Time::days_from_now(30).unwrap()).unwrap();
    builder.sign(issuer_key, MessageDigest::sha256()).unwrap();
    (key, builder.build())
}

fn identity() -> IdentityStore {
    let (key, certificate) = self_signed();
    let archive: Pkcs12 = Pkcs12::builder()
        .name("listener")
        .pkey(&key)
        .cert(&certificate)
        .build2(PASSPHRASE)
        .unwrap();
    IdentityStore { der: archive.to_der().unwrap(), passphrase: PASSPHRASE.to_string() }
}

fn secured_settings() -> TlsSettings {
    TlsSettings { verify_certificate: false, identity: Some(identity()) }
}

fn secured_stream(stream: DuplexStream) -> SslStream<DuplexStream> {
    let acceptor = secured_settings().acceptor().unwrap();
    SslStream::new(Ssl::new(acceptor.context()).unwrap(), stream).unwrap()
}

fn negotiating(stream: DuplexStream) -> Connection {
    let acceptor = secured_settings().acceptor().unwrap();
    MaybeTlsIncomingStream::new(stream, PEER, Some(acceptor), start)
}

fn other_failure(message: &str) -> IoFailure {
    IoFailure { kind: IoFailureKind::Other, message: Some(message.to_string()) }
}

fn poll_io<T>(
    connection: &mut Connection,
    cx: &mut Context<'_>,
    op: impl FnOnce(&mut MaybeTls<DuplexStream, SslStream<DuplexStream>>, &mut Context<'_>) -> Poll<io::Result<T>>,
) -> Poll<io::Result<T>> {
    let mut event = None;
    loop {
        match connection.poll_io(event.take()) {
            IoAction::Delegate => {
                return op(connection.stream_mut().expect("an established stream"), cx);
            }
            IoAction::PollHandshake => {
                let handshake = connection.handshake_mut().expect("a handshake in flight");
                event = Some(match handshake.as_mut().poll(cx) {
                    Poll::Pending => HandshakeOutcome::Pending,
                    Poll::Ready(Ok(stream)) => HandshakeOutcome::Established(stream),
                    Poll::Ready(Err(message)) => HandshakeOutcome::Failed(message),
                });
            }
            IoAction::Pending => return Poll::Pending,
            IoAction::Fail(failure) => {
                let message = failure.message.unwrap_or_default();
                return Poll::Ready(Err(io::Error::new(io::ErrorKind::Other, message)));
            }
        }
    }
}

fn poll_read(
    connection: &mut Connection,
    cx: &mut Context<'_>,
    buf: &mut ReadBuf<'_>,
) -> Poll<io::Result<()>> {
    poll_io(connection, cx, |stream, cx| match stream {
        MaybeTls::Raw(s) => Pin::new(s).poll_read(cx, buf),
        MaybeTls::Tls(s) => Pin::new(s).poll_read(cx, buf),
    })
}

fn poll_write(connection: &mut Connection, cx: &mut Context<'_>, bytes: &[u8]) -> Poll<io::Result<usize>> {
    poll_io(connection, cx, |stream, cx| match stream {
        MaybeTls::Raw(s) => Pin::new(s).poll_write(cx, bytes),
        MaybeTls::Tls(s) => Pin::new(s).poll_write(cx, bytes),
    })
}

async fn read(connection: &mut Connection, buffer: &mut [u8]) -> io::Result<usize> {
    let mut buf = ReadBuf::new(buffer);
    futures::future::poll_fn(|cx| poll_read(connection, cx, &mut buf)).await?;
    Ok(buf.filled().len())
}

#[test]
fn connection_without_acceptor_is_established_at_once() {
    let (server, _client) = duplex(64);
    let mut connection: Connection = MaybeTlsIncomingStream::new(server, PEER, None, never_started);
    assert_eq!(connection.peer_addr(), PEER);
    assert!(connection.get_ref().is_some());
    assert!(connection.handshake_mut().is_none());
    assert!(matches!(connection.stream_mut(), Some(MaybeTls::Raw(_))));
    assert_eq!(connection.poll_io(None), IoAction::Delegate);
    assert_eq!(connection.handshake(None), HandshakeStep::Established);
}

#[test]
fn raw_handle_is_the_transport_that_was_accepted() {
    let (server, mut client) = duplex(64);
    let mut connection: Connection = MaybeTlsIncomingStream::new(server, PEER, None, never_started);
    block_on(async {
        client.write_all(b"ping").await.unwrap();
        let mut buffer = [0u8; 4];
        let transport = connection.shutdown().expect("established");
        transport.read_exact(&mut buffer).await.unwrap();
        assert_eq!(&buffer, b"ping");
    });
}

#[test]
fn plain_read_returns_what_the_client_sent() {
    let (server, mut client) = duplex(1024);
    let mut listener: MaybeTlsListener<()> = MaybeTlsSettings::Raw(()).bind(|| Ok(())).unwrap();
    assert!(!listener.is_secured());
    let mut connection: Connection = listener.accept(Ok((server, PEER)), never_started).unwrap();
    let sent: Vec<u8> = (0..200u8).collect();
    block_on(async {
        client.write_all(&sent).await.unwrap();
        let mut buffer = [0u8; 512];
        let n = read(&mut connection, &mut buffer).await.unwrap();
        assert_eq!(n, 200);
        assert_eq!(&buffer[..n], &sent[..]);
    });
    assert_eq!(connection.peer_addr(), PEER);
}

#[test]
fn negotiating_connection_stays_pending_while_the_peer_is_silent() {
    let (server, _client) = duplex(1024);
    let mut connection = negotiating(server);
    let waker = noop_waker();
    let mut cx = Context::from_waker(&waker);
    for _ in 0..50 {
        let mut bytes = [0u8; 16];
        let mut buf = ReadBuf::new(&mut bytes);
        assert!(poll_read(&mut connection, &mut cx, &mut buf).is_pending());
        assert!(poll_write(&mut connection, &mut cx, b"data").is_pending());
        assert!(connection.get_ref().is_none());
        assert_eq!(connection.peer_addr(), PEER);
    }
    assert_eq!(connection.poll_io(None), IoAction::PollHandshake);
    assert_eq!(connection.poll_io(Some(HandshakeOutcome::Pending)), IoAction::Pending);
    assert_eq!(connection.handshake(None), HandshakeStep::Await);
    assert_eq!(connection.handshake(Some(HandshakeOutcome::Pending)), HandshakeStep::Await);
    assert!(connection.handshake_mut().is_some());
}

#[test]
fn failed_handshake_is_replayed_and_never_retried() {
    let (server, _client) = duplex(64);
    let mut connection = negotiating(server);
    assert_eq!(connection.poll_io(None), IoAction::PollHandshake);
    let failed = HandshakeOutcome::Failed("TLS handshake failed: no shared cipher".to_string());
    let failure = other_failure("TLS handshake failed: no shared cipher");
    assert_eq!(connection.poll_io(Some(failed)), IoAction::Fail(failure.clone()));
    assert!(connection.handshake_mut().is_none());
    assert!(connection.stream_mut().is_none());
    assert!(connection.get_ref().is_none());
    for _ in 0..10 {
        assert_eq!(connection.poll_io(None), IoAction::Fail(failure.clone()));
    }
    let (other, _peer) = duplex(64);
    let late = HandshakeOutcome::Established(secured_stream(other));
    assert_eq!(connection.poll_io(Some(late)), IoAction::Fail(failure.clone()));
    let other_message = HandshakeOutcome::Failed("another".to_string());
    assert_eq!(connection.poll_io(Some(other_message)), IoAction::Fail(failure.clone()));
    assert_eq!(connection.poll_io(Some(HandshakeOutcome::Pending)), IoAction::Fail(failure));
    assert_eq!(
        connection.handshake(None),
        HandshakeStep::Failed("TLS handshake failed: no shared cipher".to_string())
    );
    assert_eq!(connection.peer_addr(), PEER);

    let waker = noop_waker();
    let mut cx = Context::from_waker(&waker);
    match poll_write(&mut connection, &mut cx, b"data") {
        Poll::Ready(Err(error)) => {
            assert_eq!(error.kind(), io::ErrorKind::Other);
            assert_eq!(error.to_string(), "TLS handshake failed: no shared cipher");
        }
        other => panic!("expected the cached failure, got {:?}", other),
    }
}

#[test]
fn handle_appears_when_the_handshake_succeeds() {
    let (server, _client) = duplex(64);
    let mut connection = negotiating(server);
    assert!(connection.get_ref().is_none());
    assert!(connection.stream_mut().is_none());
    let (transport, _peer) = duplex(64);
    let established = HandshakeOutcome::Established(secured_stream(transport));
    assert_eq!(connection.poll_io(Some(established)), IoAction::Delegate);
    assert!(connection.get_ref().is_some());
    assert!(matches!(connection.stream_mut(), Some(MaybeTls::Tls(_))));
    assert!(connection.handshake_mut().is_none());
    assert_eq!(connection.peer_addr(), PEER);
    for _ in 0..10 {
        assert_eq!(connection.poll_io(None), IoAction::Delegate);
        assert_eq!(connection.poll_io(Some(HandshakeOutcome::Pending)), IoAction::Delegate);
        assert_eq!(connection.poll_io(Some(HandshakeOutcome::Failed("late".to_string()))), IoAction::Delegate);
        assert!(connection.get_ref().is_some());
    }
    assert_eq!(connection.handshake(None), HandshakeStep::Established);
}

#[test]
fn explicit_handshake_reports_success_and_failure() {
    let (server, _client) = duplex(64);
    let mut connection = negotiating(server);
    let (transport, _peer) = duplex(64);
    let established = HandshakeOutcome::Established(secured_stream(transport));
    assert_eq!(connection.handshake(Some(established)), HandshakeStep::Established);
    assert!(connection.get_ref().is_some());

    let (server, _client) = duplex(64);
    let mut connection = negotiating(server);
    let failed = HandshakeOutcome::Failed("refused".to_string());
    assert_eq!(connection.handshake(Some(failed)), HandshakeStep::Failed("refused".to_string()));
    assert_eq!(connection.handshake(None), HandshakeStep::Failed("refused".to_string()));
    assert_eq!(connection.poll_io(None), IoAction::Fail(other_failure("refused")));
}

#[test]
fn shutdown_needs_an_established_connection() {
    let not_connected = IoFailure { kind: IoFailureKind::NotConnected, message: None };
    let (server, _client) = duplex(64);
    let mut connection = negotiating(server);
    assert_eq!(connection.shutdown().err(), Some(not_connected.clone()));
    assert_eq!(connection.poll_io(None), IoAction::PollHandshake);
    connection.poll_io(Some(HandshakeOutcome::Failed("refused".to_string())));
    assert_eq!(connection.shutdown().err(), Some(not_connected));
    assert_eq!(connection.poll_io(None), IoAction::Fail(other_failure("refused")));

    let (server, _client) = duplex(64);
    let mut connection = negotiating(server);
    let (transport, _peer) = duplex(64);
    connection.poll_io(Some(HandshakeOutcome::Established(secured_stream(transport))));
    assert!(connection.shutdown().is_ok());
    assert_eq!(connection.poll_io(None), IoAction::Delegate);
}

#[test]
fn socket_tuning_needs_an_established_connection() {
    let (server, _client) = duplex(64);
    let mut connection = negotiating(server);
    let refused = connection.set_receive_buffer_bytes(4096).err().expect("not established");
    assert_eq!(refused.kind, IoFailureKind::NotConnected);
    assert_eq!(
        refused.message.as_deref(),
        Some("Can't set receive buffer size on connection that has not been accepted yet.")
    );
    assert!(connection.set_keepalive(TcpKeepaliveConfig { time_secs: Some(30) }).is_ok());
    assert_eq!(connection.poll_io(None), IoAction::PollHandshake);

    let (server, _client) = duplex(64);
    let mut connection: Connection = MaybeTlsIncomingStream::new(server, PEER, None, never_started);
    let (_, bytes) = connection.set_receive_buffer_bytes(4096).expect("established");
    assert_eq!(bytes, 4096);
    assert!(connection.set_keepalive(TcpKeepaliveConfig { time_secs: None }).is_ok());
    assert_eq!(connection.poll_io(None), IoAction::Delegate);
}

#[test]
fn acceptor_needs_an_identity() {
    let settings = TlsSettings { verify_certificate: true, identity: None };
    assert!(matches!(settings.acceptor(), Err(TlsError::MissingRequiredIdentity)));
    let settings = MaybeTlsSettings::Tls(TlsSettings { verify_certificate: false, identity: None });
    assert!(matches!(settings.acceptor(), Err(TlsError::MissingRequiredIdentity)));
    assert!(matches!(
        settings.bind(|| -> Result<(), io::Error> { panic!("no endpoint is bound") }),
        Err(TlsError::MissingRequiredIdentity)
    ));
}

#[test]
fn acceptor_is_built_from_a_valid_identity() {
    assert!(secured_settings().acceptor().is_ok());
    let verifying = TlsSettings { verify_certificate: true, identity: Some(identity()) };
    let acceptor = verifying.acceptor().unwrap();
    let mode = acceptor.context().verify_mode();
    assert_eq!(mode, SslVerifyMode::PEER | SslVerifyMode::FAIL_IF_NO_PEER_CERT);
    let lenient = secured_settings().acceptor().unwrap();
    assert_eq!(lenient.context().verify_mode(), SslVerifyMode::NONE);
    assert!(lenient.context().certificate().is_some());
    assert!(lenient.context().private_key().is_some());
}

#[test]
fn acceptor_refuses_malformed_material() {
    let garbage = TlsSettings {
        verify_certificate: false,
        identity: Some(IdentityStore { der: vec![1, 2, 3, 4], passphrase: String::new() }),
    };
    assert!(matches!(garbage.acceptor(), Err(TlsError::ParsePkcs12 { .. })));

    let mut wrong_passphrase = identity();
    wrong_passphrase.passphrase = "something else".to_string();
    let settings = TlsSettings { verify_certificate: false, identity: Some(wrong_passphrase) };
    assert!(matches!(settings.acceptor(), Err(TlsError::ParsePkcs12 { .. })));

    let mut with_nul = identity();
    with_nul.passphrase = "open\0sesame".to_string();
    let settings = TlsSettings { verify_certificate: false, identity: Some(with_nul) };
    assert!(matches!(settings.acceptor(), Err(TlsError::InvalidPassphrase)));
}

#[test]
fn acceptor_refuses_an_archive_without_a_leaf() {
    let (_, certificate) = self_signed();
    let archive = Pkcs12::builder().cert(&certificate).build2(PASSPHRASE).unwrap();
    let settings = TlsSettings {
        verify_certificate: false,
        identity: Some(IdentityStore {
            der: archive.to_der().unwrap(),
            passphrase: PASSPHRASE.to_string(),
        }),
    };
    // OpenSSL hands out a leaf certificate only together with the key that it
    // belongs to: without the key the archive has no leaf.
    assert!(matches!(settings.acceptor(), Err(TlsError::MissingCertificate)));

    let (key, _) = self_signed();
    let archive = Pkcs12::builder().pkey(&key).build2(PASSPHRASE).unwrap();
    let settings = TlsSettings {
        verify_certificate: false,
        identity: Some(IdentityStore {
            der: archive.to_der().unwrap(),
            passphrase: PASSPHRASE.to_string(),
        }),
    };
    assert!(matches!(settings.acceptor(), Err(TlsError::MissingCertificate)));
}

#[test]
fn nul_is_found_wherever_it_stands() {
    assert!(!contains_nul(""));
    assert!(!contains_nul("passphrase"));
    assert!(contains_nul("\0"));
    assert!(contains_nul("pass\0phrase"));
    assert!(contains_nul("ends with\0"));
    assert!(!contains_nul("caf\u{e9} 0"));
}

#[test]
fn bind_asks_for_the_acceptor_before_it_binds() {
    let bound = Cell::new(0);
    let without_identity =
        MaybeTlsSettings::Tls(TlsSettings { verify_certificate: false, identity: None });
    let refused = without_identity.bind(|| {
        bound.set(bound.get() + 1);
        Ok(())
    });
    assert!(matches!(refused, Err(TlsError::MissingRequiredIdentity)));
    assert_eq!(bound.get(), 0);

    let mut with_nul = identity();
    with_nul.passphrase = "open\0sesame".to_string();
    let settings =
        MaybeTlsSettings::Tls(TlsSettings { verify_certificate: false, identity: Some(with_nul) });
    let refused = settings.bind(|| {
        bound.set(bound.get() + 1);
        Ok(())
    });
    assert!(matches!(refused, Err(TlsError::InvalidPassphrase)));
    assert_eq!(bound.get(), 0);

    let garbage = MaybeTlsSettings::Tls(TlsSettings {
        verify_certificate: false,
        identity: Some(IdentityStore { der: vec![1, 2, 3, 4], passphrase: String::new() }),
    });
    let refused = garbage.bind(|| {
        bound.set(bound.get() + 1);
        Ok(())
    });
    assert!(matches!(refused, Err(TlsError::ParsePkcs12 { .. })));
    assert_eq!(bound.get(), 0);

    let made = MaybeTlsSettings::Tls(secured_settings()).bind(|| {
        bound.set(bound.get() + 1);
        Ok(())
    });
    assert!(made.is_ok());
    assert_eq!(bound.get(), 1);

    let made = MaybeTlsSettings::Raw(()).bind(|| {
        bound.set(bound.get() + 1);
        Ok(())
    });
    assert!(made.is_ok());
    assert_eq!(bound.get(), 2);
}

#[test]
fn bind_reports_the_failure_of_the_endpoint() {
    let in_use = || io::Error::new(io::ErrorKind::AddrInUse, "address in use");
    let raw = MaybeTlsSettings::Raw(());
    match raw.bind::<(), _>(|| Err(in_use())) {
        Err(TlsError::TcpBind { source }) => assert_eq!(source.kind(), io::ErrorKind::AddrInUse),
        _ => panic!("expected the bind failure"),
    }
    let secured = MaybeTlsSettings::Tls(secured_settings());
    match secured.bind::<(), _>(|| Err(in_use())) {
        Err(TlsError::TcpBind { source }) => assert_eq!(source.kind(), io::ErrorKind::AddrInUse),
        _ => panic!("expected the bind failure"),
    }
    let without_identity =
        MaybeTlsSettings::Tls(TlsSettings { verify_certificate: false, identity: None });
    assert!(matches!(
        without_identity.bind::<(), _>(|| Err(in_use())),
        Err(TlsError::MissingRequiredIdentity)
    ));
}

#[test]
fn listener_is_made_from_the_outcome_of_the_bind() {
    let made: MaybeTlsListener<u32> = MaybeTlsListener::listen(Ok(5), None).unwrap();
    assert_eq!(*made.listener(), 5);
    assert!(!made.is_secured());
    let acceptor = secured_settings().acceptor().unwrap();
    let made: MaybeTlsListener<u32> = MaybeTlsListener::listen(Ok(6), Some(acceptor)).unwrap();
    assert_eq!(*made.listener(), 6);
    assert!(made.is_secured());
    let acceptor = secured_settings().acceptor().unwrap();
    let failed: Result<MaybeTlsListener<u32>, TlsError> = MaybeTlsListener::listen(
        Err(io::Error::new(io::ErrorKind::PermissionDenied, "denied")),
        Some(acceptor),
    );
    match failed {
        Err(TlsError::TcpBind { source }) => {
            assert_eq!(source.kind(), io::ErrorKind::PermissionDenied)
        }
        _ => panic!("expected the bind failure"),
    }
}

#[test]
fn identity_is_installed_leaf_first_and_chain_in_order() {
    let (authority_key, authority) = self_signed();
    let (middle_key, middle) = signed_by(&authority_key, &authority, "middle.localhost");
    let (key, leaf) = signed_by(&middle_key, &middle, "leaf.localhost");
    let identity = Identity {
        certificate: leaf.clone(),
        key: key.clone(),
        chain: vec![middle.clone(), authority.clone()],
    };
    let mut builder = SslAcceptor::mozilla_intermediate(SslMethod::tls()).unwrap();
    builder.set_verify(SslVerifyMode::PEER);
    identity.install(&mut builder).unwrap();
    let acceptor = builder.build();
    let context = acceptor.context();
    assert_eq!(context.verify_mode(), SslVerifyMode::PEER);
    assert_eq!(context.certificate().unwrap().to_der().unwrap(), leaf.to_der().unwrap());
    assert!(context.private_key().unwrap().public_eq(&key));
    let chain: Vec<Vec<u8>> =
        context.extra_chain_certs().iter().map(|c| c.to_der().unwrap()).collect();
    assert_eq!(chain, vec![middle.to_der().unwrap(), authority.to_der().unwrap()]);
}

#[test]
fn identity_with_a_key_of_another_leaf_is_refused() {
    let (_, leaf) = self_signed();
    let (other_key, _) = self_signed();
    let identity = Identity { certificate: leaf, key: other_key, chain: Vec::new() };
    let mut builder = SslAcceptor::mozilla_intermediate(SslMethod::tls()).unwrap();
    assert!(matches!(identity.install(&mut builder), Err(TlsError::SetPrivateKey { .. })));
}

#[test]
fn bind_attaches_the_acceptor_that_the_settings_ask_for() {
    let raw: MaybeTlsListener<u32> = MaybeTlsSettings::Raw(()).bind(|| Ok(7)).unwrap();
    assert_eq!(*raw.listener(), 7);
    assert!(!raw.is_secured());
    let secured: MaybeTlsListener<u32> = MaybeTlsSettings::Tls(secured_settings()).bind(|| Ok(8)).unwrap();
    assert_eq!(*secured.listener(), 8);
    assert!(secured.is_secured());
    let from: MaybeTlsListener<u32> = MaybeTlsListener::from(9);
    assert_eq!(*from.listener(), 9);
    assert!(!from.is_secured());
}

#[test]
fn accept_reports_the_failure_of_the_endpoint_and_goes_on() {
    let mut listener: MaybeTlsListener<()> = MaybeTlsSettings::Tls(secured_settings()).bind(|| Ok(())).unwrap();
    let failed: Result<(DuplexStream, SocketAddress), io::Error> =
        Err(io::Error::new(io::ErrorKind::ConnectionAborted, "aborted"));
    match listener.accept(failed, start) {
        Err(TlsError::IncomingListener { source }) => {
            assert_eq!(source.kind(), io::ErrorKind::ConnectionAborted)
        }
        _ => panic!("expected the failure of the endpoint"),
    }
    assert!(listener.is_secured());
    let (server, _client) = duplex(64);
    let mut connection: Connection = listener.accept(Ok((server, PEER)), start).unwrap();
    assert_eq!(connection.poll_io(None), IoAction::PollHandshake);
    assert_eq!(connection.peer_addr(), PEER);
}

#[test]
fn accept_gives_each_connection_the_address_of_its_peer() {
    let mut listener: MaybeTlsListener<()> = MaybeTlsListener::from(());
    let first = SocketAddress::V4 { ip: 0x0a00_0001, port: 1 };
    let second = SocketAddress::V6 { ip: 1, port: 65535, flowinfo: 0, scope_id: 3 };
    let (a, _keep_a) = duplex(64);
    let (b, _keep_b) = duplex(64);
    let one: Connection = listener.accept(Ok((a, first)), never_started).unwrap();
    let two: Connection = listener.accept(Ok((b, second)), never_started).unwrap();
    assert_eq!(one.peer_addr(), first);
    assert_eq!(two.peer_addr(), second);
    assert!(one.get_ref().is_some());
    assert!(two.get_ref().is_some());
}

#[test]
fn secured_read_returns_what_the_client_sent() {
    let mut listener: MaybeTlsListener<()> = MaybeTlsSettings::Tls(secured_settings()).bind(|| Ok(())).unwrap();
    let (server, client) = duplex(16 * 1024);
    let mut connection: Connection = listener.accept(Ok((server, PEER)), start).unwrap();
    assert!(connection.get_ref().is_none());
    assert_eq!(connection.peer_addr(), PEER);

    let mut connector = SslConnector::builder(SslMethod::tls()).unwrap();
    connector.set_verify(SslVerifyMode::NONE);
    let config = connector.build().configure().unwrap();
    let ssl = config.into_ssl("localhost").unwrap();
    let mut client = SslStream::new(ssl, client).unwrap();
    let sent = b"events, secured".to_vec();

    let server_side = async {
        let mut buffer = [0u8; 64];
        let n = read(&mut connection, &mut buffer).await.unwrap();
        buffer[..n].to_vec()
    };
    let client_side = async {
        Pin::new(&mut client).connect().await.unwrap();
        client.write_all(&sent).await.unwrap();
        client.flush().await.unwrap();
    };
    let (received, ()) = block_on(join(server_side, client_side));
    assert_eq!(received, sent);
    assert!(connection.get_ref().is_some());
    assert_eq!(connection.poll_io(None), IoAction::Delegate);
    assert_eq!(connection.peer_addr(), PEER);
}

#[test]
fn handshake_with_a_peer_that_speaks_no_tls_fails_for_good() {
    let mut listener: MaybeTlsListener<()> = MaybeTlsSettings::Tls(secured_settings()).bind(|| Ok(())).unwrap();
    let (server, mut client) = duplex(16 * 1024);
    let mut connection: Connection = listener.accept(Ok((server, PEER)), start).unwrap();
    let first = block_on(async {
        client.write_all(b"GET / HTTP/1.1\r\nHost: localhost\r\n\r\n").await.unwrap();
        let mut buffer = [0u8; 64];
        read(&mut connection, &mut buffer).await.unwrap_err()
    });
    assert_eq!(first.kind(), io::ErrorKind::Other);
    assert!(first.to_string().starts_with("TLS handshake failed: "));
    let again = block_on(async {
        let mut buffer = [0u8; 64];
        read(&mut connection, &mut buffer).await.unwrap_err()
    });
    assert_eq!(again.to_string(), first.to_string());
    assert!(connection.get_ref().is_none());
    assert!(connection.handshake_mut().is_none());
    assert_eq!(connection.peer_addr(), PEER);
}

#[test]
fn dropping_a_negotiating_connection_leaves_the_listener_alone() {
    let mut listener: MaybeTlsListener<()> = MaybeTlsSettings::Tls(secured_settings()).bind(|| Ok(())).unwrap();
    let (server, _client) = duplex(64);
    let mut abandoned: Connection = listener.accept(Ok((server, PEER)), start).unwrap();
    let waker = noop_waker();
    let mut cx = Context::from_waker(&waker);
    let mut bytes = [0u8; 8];
    let mut buf = ReadBuf::new(&mut bytes);
    assert!(poll_read(&mut abandoned, &mut cx, &mut buf).is_pending());
    drop(abandoned);

    assert!(listener.is_secured());
    let (server, _client) = duplex(64);
    let next = SocketAddress::V4 { ip: 0x7f00_0001, port: 40124 };
    let mut connection: Connection = listener.accept(Ok((server, next)), start).unwrap();
    assert_eq!(connection.peer_addr(), next);
    assert_eq!(connection.poll_io(None), IoAction::PollHandshake);
}

#[test]
fn chain_of_the_identity_is_sent_with_the_leaf() {
    let (authority_key, authority) = self_signed();
    let (key, leaf) = signed_by(&authority_key, &authority, "leaf.localhost");
    let mut chain = Stack::new().unwrap();
    chain.push(authority.clone()).unwrap();
    let archive = Pkcs12::builder()
        .name("listener")
        .pkey(&key)
        .cert(&leaf)
        .ca(chain)
        .build2(PASSPHRASE)
        .unwrap();
    let settings = TlsSettings {
        verify_certificate: false,
        identity: Some(IdentityStore {
            der: archive.to_der().unwrap(),
            passphrase: PASSPHRASE.to_string(),
        }),
    };
    let mut listener: MaybeTlsListener<()> = MaybeTlsSettings::Tls(settings).bind(|| Ok(())).unwrap();
    let (server, client) = duplex(16 * 1024);
    let mut connection: Connection = listener.accept(Ok((server, PEER)), start).unwrap();

    let mut connector = SslConnector::builder(SslMethod::tls()).unwrap();
    connector.set_verify(SslVerifyMode::NONE);
    let ssl = connector.build().configure().unwrap().into_ssl("leaf.localhost").unwrap();
    let mut client = SslStream::new(ssl, client).unwrap();

    let server_side = async {
        let mut buffer = [0u8; 8];
        read(&mut connection, &mut buffer).await.unwrap()
    };
    let client_side = async {
        Pin::new(&mut client).connect().await.unwrap();
        client.write_all(b"x").await.unwrap();
        client.flush().await.unwrap();
    };
    let (n, ()) = block_on(join(server_side, client_side));
    assert_eq!(n, 1);
    let sent: Vec<Vec<u8>> = client
        .ssl()
        .peer_cert_chain()
        .expect("the server sent certificates")
        .iter()
        .map(|certificate| certificate.to_der().unwrap())
        .collect();
    assert_eq!(sent, vec![leaf.to_der().unwrap(), authority.to_der().unwrap()]);
}

#[test]
fn parsed_archive_needs_a_leaf_and_a_key() {
    let (key, certificate) = self_signed();
    let (_, other) = self_signed();

    let nothing = ParsedIdentity { key: None, certificate: None, chain: Vec::new() };
    assert!(matches!(nothing.complete(), Err(TlsError::MissingCertificate)));

    let only_key = ParsedIdentity { key: Some(key.clone()), certificate: None, chain: Vec::new() };
    assert!(matches!(only_key.complete(), Err(TlsError::MissingCertificate)));

    let only_leaf =
        ParsedIdentity { key: None, certificate: Some(certificate.clone()), chain: Vec::new() };
    assert!(matches!(only_leaf.complete(), Err(TlsError::MissingPrivateKey)));

    let whole = ParsedIdentity {
        key: Some(key.clone()),
        certificate: Some(certificate.clone()),
        chain: vec![other.clone()],
    };
    let identity = whole.complete().expect("a leaf and its key");
    assert_eq!(identity.certificate.to_der().unwrap(), certificate.to_der().unwrap());
    assert!(identity.key.public_eq(&key));
    assert_eq!(identity.chain.len(), 1);
    assert_eq!(identity.chain[0].to_der().unwrap(), other.to_der().unwrap());
}

#[test]
fn identity_with_a_key_of_another_algorithm_is_refused() {
    let (_, leaf) = self_signed();
    let group = EcGroup::from_curve_name(Nid::X9_62_PRIME256V1).unwrap();
    let other_key = PKey::from_ec_key(EcKey::generate(&group).unwrap()).unwrap();
    let identity = Identity { certificate: leaf, key: other_key, chain: Vec::new() };
    let mut builder = SslAcceptor::mozilla_intermediate(SslMethod::tls()).unwrap();
    let refused = identity.install(&mut builder);
    assert!(matches!(refused, Err(TlsError::CheckPrivateKey { .. })), "{:?}", refused);
}
