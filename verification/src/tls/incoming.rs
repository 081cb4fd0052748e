//! Incoming connections: the listener that hands them out and the state
//! machine that each of them is.

use super::settings::{
    acceptor_setup, build_acceptor, builder_setup, clone_acceptor, contains_nul, has_nul,
    new_acceptor_builder, pkcs12_from_der, pkcs12_parse, set_verify, IdentityStore, TlsSettings,
};
use super::{IoFailure, IoFailureKind, MaybeTls, MaybeTlsStream, SocketAddress, TlsError};
use crate::tcp::TcpKeepaliveConfig;
use openssl::ssl::{SslAcceptor, SslAcceptorBuilder};
use tokio_openssl::SslStream;
use vstd::prelude::*;
use vstd::std_specs::convert::FromSpecImpl;
use vstd::string::StringExecFns;

verus! {

/// The error of an outcome, if it is one.
pub open spec fn error_of<T>(outcome: Result<T, TlsError>) -> Option<TlsError> {
    match outcome {
        Ok(_) => None,
        Err(error) => Some(error),
    }
}

impl TlsSettings {
    /// Whether building the acceptor from these settings may end as `error`
    /// says (`None` stands for success).
    ///
    /// Settings without an identity give `MissingRequiredIdentity`, and a
    /// passphrase with a NUL character gives `InvalidPassphrase`; nothing else
    /// gives either. Any other error says that the security context could not
    /// be built.
    pub open spec fn admits(self, error: Option<TlsError>) -> bool {
        &&& (self.identity is None <==> error == Some(TlsError::MissingRequiredIdentity))
        &&& (self.identity matches Some(identity) && has_nul(identity.passphrase@)) <==> error
            == Some(TlsError::InvalidPassphrase)
        &&& (error matches Some(e) ==> e is MissingRequiredIdentity || e.is_context_build_error())
    }

    /// Whether `acceptor` was configured as these settings ask: its context
    /// holds both flags of peer verification where the peer's certificate is
    /// to be verified and neither where it is not, and it holds a private key
    /// that is consistent with its certificate.
    pub open spec fn configures(self, acceptor: SslAcceptor) -> bool {
        &&& acceptor_setup(acceptor).verify == (self.verify_certificate, self.verify_certificate)
        &&& acceptor_setup(acceptor).key is Some
        &&& acceptor_setup(acceptor).consistent
    }

    /// Puts the identity into an acceptor that is being configured: the
    /// archive is decoded and opened, and what it holds is installed, the leaf
    /// certificate, its private key, and the rest of the chain in its order.
    ///
    /// Where that succeeds the context holds a key that is consistent with
    /// its certificate, and its chain begins as before; the flags are
    /// untouched. Which key and chain is for the archive to say.
    fn apply_identity(builder: &mut SslAcceptorBuilder, identity: &IdentityStore) -> (done: Result<
        (),
        TlsError,
    >)
        requires
            !has_nul(identity.passphrase@),
        ensures
            done matches Err(e) ==> e.is_context_build_error() && !(e is CreateAcceptor) && !(e
                is InvalidPassphrase),
            done is Ok ==> builder_setup(*final(builder)).verify == builder_setup(
                *old(builder),
            ).verify,
            done is Ok ==> builder_setup(*final(builder)).key is Some,
            done is Ok ==> builder_setup(*final(builder)).consistent,
            done is Ok ==> builder_setup(*old(builder)).chain.is_prefix_of(
                builder_setup(*final(builder)).chain,
            ),
    {
        let archive = match pkcs12_from_der(identity.der.as_slice()) {
            Ok(archive) => archive,
            Err(source) => {
                return Err(TlsError::ParsePkcs12 { source });
            },
        };
        let parsed = match pkcs12_parse(&archive, identity.passphrase.as_str()) {
            Ok(parsed) => parsed,
            Err(source) => {
                return Err(TlsError::ParsePkcs12 { source });
            },
        };
        let complete = match parsed.complete() {
            Ok(complete) => complete,
            Err(error) => {
                return Err(error);
            },
        };
        complete.install(builder)
    }

    /// Builds the acceptor that negotiates security on every connection of a
    /// listener.
    ///
    /// Settings without an identity and passphrases with a NUL character are
    /// refused before OpenSSL is asked. For the other settings the outcome is
    /// OpenSSL's: the acceptor, or the error of the step that refused the
    /// material. An acceptor that is built was configured as the settings ask.
    pub fn acceptor(&self) -> (built: Result<SslAcceptor, TlsError>)
        ensures
            self.admits(error_of(built)),
            built matches Ok(acceptor) ==> self.configures(acceptor),
    {
        match &self.identity {
            None => Err(TlsError::MissingRequiredIdentity),
            Some(identity) => {
                if contains_nul(identity.passphrase.as_str()) {
                    return Err(TlsError::InvalidPassphrase);
                }
                let mut builder = match new_acceptor_builder() {
                    Ok(builder) => builder,
                    Err(source) => {
                        return Err(TlsError::CreateAcceptor { source });
                    },
                };
                set_verify(&mut builder, self.verify_certificate, self.verify_certificate);
                match Self::apply_identity(&mut builder, identity) {
                    Ok(()) => {},
                    Err(error) => {
                        return Err(error);
                    },
                }
                Ok(build_acceptor(builder))
            },
        }
    }
}

/// A bound endpoint `L` and the acceptor that its connections share, if
/// security is on.
pub struct MaybeTlsListener<L> {
    listener: L,
    acceptor: Option<SslAcceptor>,
}

/// Whether `listener` is what the outcome `bound` of binding the endpoint
/// gives: the listener over the endpoint, or the failure of the bind.
pub open spec fn bound_as<L>(
    bound: Result<L, std::io::Error>,
    listener: Result<MaybeTlsListener<L>, TlsError>,
) -> bool {
    match bound {
        Ok(endpoint) => listener matches Ok(made) && made.spec_listener() == endpoint,
        Err(source) => listener == Err::<MaybeTlsListener<L>, TlsError>(
            TlsError::TcpBind { source },
        ),
    }
}

/// Whether making `listener` came as far as binding the endpoint: there is a
/// listener, or the bind is what failed.
pub open spec fn reached_endpoint<L>(listener: Result<MaybeTlsListener<L>, TlsError>) -> bool {
    match listener {
        Ok(_) => true,
        Err(error) => error is TcpBind,
    }
}

impl MaybeTls<(), TlsSettings> {
    /// Whether the acceptor of a listener with these settings can be had:
    /// security is off, or it is on with an identity whose passphrase has no
    /// NUL character.
    pub open spec fn may_bind(self) -> bool {
        match self {
            MaybeTls::Raw(_) => true,
            MaybeTls::Tls(tls) => tls.admits(None),
        }
    }

    /// The acceptor that a listener with these settings shares among its
    /// connections: none without security, else the one built from the
    /// settings.
    pub fn acceptor(&self) -> (built: Result<Option<SslAcceptor>, TlsError>)
        ensures
            self is Raw ==> built == Ok::<Option<SslAcceptor>, TlsError>(None),
            self matches MaybeTls::Tls(tls) ==> tls.admits(error_of(built)) && (built matches Ok(
                shared,
            ) ==> shared matches Some(acceptor) && tls.configures(acceptor)),
    {
        match self {
            MaybeTls::Tls(tls) => match tls.acceptor() {
                Ok(acceptor) => Ok(Some(acceptor)),
                Err(error) => Err(error),
            },
            MaybeTls::Raw(_) => Ok(None),
        }
    }

    /// Makes the listener: first the acceptor that the settings ask for, and
    /// only when that is had, the endpoint, which `bind_endpoint` binds.
    ///
    /// Settings whose acceptor cannot be built give its error, and no endpoint
    /// is bound for them. For the others `bind_endpoint` is called once: its
    /// failure is reported as `TcpBind`, and the endpoint that it gives
    /// becomes the listener, without an acceptor where security is off and
    /// with the acceptor built from the settings where it is on.
    pub fn bind<L, B: FnOnce() -> Result<L, std::io::Error>>(&self, bind_endpoint: B) -> (listener:
        Result<MaybeTlsListener<L>, TlsError>)
        requires
            self.may_bind() ==> call_requires(bind_endpoint, ()),
        ensures
            self is Raw ==> reached_endpoint(listener),
            self matches MaybeTls::Tls(tls) ==> (if reached_endpoint(listener) {
                tls.admits(None)
            } else {
                tls.admits(error_of(listener))
            }),
            reached_endpoint(listener) ==> exists|bound: Result<L, std::io::Error>|
                #[trigger] call_ensures(bind_endpoint, (), bound) && bound_as(bound, listener),
            listener matches Ok(made) ==> match self {
                MaybeTls::Raw(_) => made.spec_acceptor() is None,
                MaybeTls::Tls(tls) => made.spec_acceptor() matches Some(acceptor)
                    && tls.configures(acceptor),
            },
    {
        let acceptor = match self.acceptor() {
            Ok(acceptor) => acceptor,
            Err(error) => {
                return Err(error);
            },
        };
        let bound = bind_endpoint();
        let listener = MaybeTlsListener::listen(bound, acceptor);
        proof {
            assert(call_ensures(bind_endpoint, (), bound) && bound_as(bound, listener));
        }
        listener
    }
}

impl<L> MaybeTlsListener<L> {
    /// The bound endpoint.
    pub closed spec fn spec_listener(&self) -> L {
        self.listener
    }

    /// The acceptor that the connections share.
    pub closed spec fn spec_acceptor(&self) -> Option<SslAcceptor> {
        self.acceptor
    }

    /// A listener over a bound endpoint, with the acceptor that its
    /// connections share.
    pub fn new(listener: L, acceptor: Option<SslAcceptor>) -> (made: Self)
        ensures
            made.spec_listener() == listener,
            made.spec_acceptor() == acceptor,
    {
        Self { listener, acceptor }
    }

    /// The listener that the outcome of binding the endpoint gives: over the
    /// endpoint and with the acceptor, or the failure of the bind.
    pub fn listen(bound: Result<L, std::io::Error>, acceptor: Option<SslAcceptor>) -> (listener:
        Result<Self, TlsError>)
        ensures
            bound_as(bound, listener),
            listener matches Ok(made) ==> made.spec_acceptor() == acceptor,
    {
        match bound {
            Ok(listener) => Ok(Self { listener, acceptor }),
            Err(source) => Err(TlsError::TcpBind { source }),
        }
    }

    /// The bound endpoint, on which the owner waits for the next connection.
    pub fn listener(&self) -> (endpoint: &L)
        ensures
            *endpoint == self.spec_listener(),
    {
        &self.listener
    }

    /// Whether the connections of this listener negotiate security.
    pub fn is_secured(&self) -> (secured: bool)
        ensures
            secured == self.spec_acceptor() is Some,
    {
        self.acceptor.is_some()
    }

    /// Makes the connection from the outcome of waiting for one.
    ///
    /// A failed wait is reported as such and leaves the listener as it was. A
    /// transport that was accepted becomes a connection with the peer's
    /// address as the endpoint reported it: established at once where the
    /// listener has no acceptor, else waiting for the handshake that `start`
    /// makes from a handle to the listener's acceptor and the transport.
    pub fn accept<S, H, F: FnOnce(SslAcceptor, S) -> H>(
        &mut self,
        accepted: Result<(S, SocketAddress), std::io::Error>,
        start: F,
    ) -> (connection: Result<MaybeTlsIncomingStream<S, H>, TlsError>)
        requires
            accepted matches Ok(pair) ==> (old(self).spec_acceptor() matches Some(a)
                ==> call_requires(start, (a, pair.0))),
        ensures
            *final(self) == *old(self),
            accepted matches Err(source) ==> connection == Err::<
                MaybeTlsIncomingStream<S, H>,
                TlsError,
            >(TlsError::IncomingListener { source }),
            accepted matches Ok((stream, peer_addr)) ==> {
                &&& connection matches Ok(c)
                &&& c.spec_peer_addr() == peer_addr
                &&& (old(self).spec_acceptor() is None ==> c.state() == StreamState::<
                    S,
                    H,
                >::Accepted(MaybeTls::Raw(stream)))
                &&& (old(self).spec_acceptor() matches Some(a) ==> c.state() matches StreamState::Accepting(
                    h,
                ) && call_ensures(start, (a, stream), h))
            },
    {
        match accepted {
            Ok((stream, peer_addr)) => {
                let acceptor = match &self.acceptor {
                    Some(acceptor) => Some(clone_acceptor(acceptor)),
                    None => None,
                };
                Ok(MaybeTlsIncomingStream::new(stream, peer_addr, acceptor, start))
            },
            Err(source) => Err(TlsError::IncomingListener { source }),
        }
    }
}

impl<L> From<L> for MaybeTlsListener<L> {
    /// A listener without security over an endpoint that is already bound.
    fn from(listener: L) -> (made: Self)
        ensures
            made.spec_listener() == listener,
            made.spec_acceptor() is None,
    {
        Self { listener, acceptor: None }
    }
}

impl<L> FromSpecImpl<L> for MaybeTlsListener<L> {
    open spec fn obeys_from_spec() -> bool {
        true
    }

    closed spec fn from_spec(listener: L) -> Self {
        Self { listener, acceptor: None }
    }
}

/// Where a connection stands with respect to its handshake.
///
/// `Accepted(Raw)` is a connection that needs no security, `Accepting` one
/// whose handshake is in flight (`H` is the suspended computation),
/// `Accepted(Tls)` one whose handshake succeeded, and `AcceptError` one whose
/// handshake failed, with the message of the failure.
#[verifier::reject_recursive_types(S)]
pub enum StreamState<S, H> {
    Accepted(MaybeTlsStream<S>),
    Accepting(H),
    AcceptError(String),
}

/// What one step of the handshake computation produced.
#[verifier::reject_recursive_types(S)]
pub enum HandshakeOutcome<S> {
    /// The computation would block.
    Pending,
    /// The handshake succeeded; this is the secured stream.
    Established(SslStream<S>),
    /// The handshake failed; this is the message of the failure.
    Failed(String),
}

/// What the owner of a connection does next for an I/O call.
#[derive(Clone, Debug, PartialEq, Eq)]
pub enum IoAction {
    /// Run the requested operation on the established stream and return what
    /// it returns.
    Delegate,
    /// Advance the handshake computation by one step and report the outcome.
    PollHandshake,
    /// Return "not ready" without completing the operation.
    Pending,
    /// Return this failure.
    Fail(IoFailure),
}

/// What the owner of a connection does next for an explicit handshake.
#[derive(Clone, Debug, PartialEq, Eq)]
pub enum HandshakeStep {
    /// Wait for the handshake computation and report the outcome.
    Await,
    /// The connection is established.
    Established,
    /// The handshake failed with this message.
    Failed(String),
}

/// The failure that a connection with a failed handshake reports.
pub open spec fn handshake_failure(message: String) -> IoFailure {
    IoFailure { kind: IoFailureKind::Other, message: Some(message) }
}

/// The failure of an operation that needs an established connection.
pub open spec fn not_connected() -> IoFailure {
    IoFailure { kind: IoFailureKind::NotConnected, message: None }
}

/// What a connection that is not established says when it is asked to set
/// the size of its receive buffer.
pub open spec fn receive_buffer_refusal() -> Seq<char> {
    "Can't set receive buffer size on connection that has not been accepted yet."@
}

impl<S, H> StreamState<S, H> {
    /// Security is not required: established from the start.
    pub open spec fn is_raw(self) -> bool {
        self matches StreamState::Accepted(MaybeTls::Raw(_))
    }

    /// The handshake is in flight.
    pub open spec fn is_negotiating(self) -> bool {
        self is Accepting
    }

    /// The handshake completed.
    pub open spec fn is_secured(self) -> bool {
        self matches StreamState::Accepted(MaybeTls::Tls(_))
    }

    /// The handshake failed.
    pub open spec fn is_failed(self) -> bool {
        self is AcceptError
    }

    /// The state after the owner reported `event`.
    ///
    /// Only a connection whose handshake is in flight moves, and only when the
    /// handshake resolved: to the secured stream, or to the cached failure.
    pub open spec fn after(self, event: Option<HandshakeOutcome<S>>) -> Self {
        match (self, event) {
            (StreamState::Accepting(_), Some(HandshakeOutcome::Established(stream))) =>
                StreamState::Accepted(MaybeTls::Tls(stream)),
            (StreamState::Accepting(_), Some(HandshakeOutcome::Failed(message))) =>
                StreamState::AcceptError(message),
            _ => self,
        }
    }

    /// What the owner is told to do when it reports `event` in this state.
    pub open spec fn action(self, event: Option<HandshakeOutcome<S>>) -> IoAction {
        match self {
            StreamState::Accepted(_) => IoAction::Delegate,
            StreamState::AcceptError(message) => IoAction::Fail(handshake_failure(message)),
            StreamState::Accepting(_) => match event {
                None => IoAction::PollHandshake,
                Some(HandshakeOutcome::Pending) => IoAction::Pending,
                Some(HandshakeOutcome::Established(_)) => IoAction::Delegate,
                Some(HandshakeOutcome::Failed(message)) => IoAction::Fail(
                    handshake_failure(message),
                ),
            },
        }
    }

    /// What the owner is told to do for an explicit handshake.
    pub open spec fn handshake_step(self, event: Option<HandshakeOutcome<S>>) -> HandshakeStep {
        match self.action(event) {
            IoAction::Delegate => HandshakeStep::Established,
            IoAction::PollHandshake => HandshakeStep::Await,
            IoAction::Pending => HandshakeStep::Await,
            IoAction::Fail(failure) => HandshakeStep::Failed(failure.message->0),
        }
    }

    /// The state after the owner reported each of `events` in turn.
    pub open spec fn after_all(self, events: Seq<Option<HandshakeOutcome<S>>>) -> Self
        decreases events.len(),
    {
        if events.len() == 0 {
            self
        } else {
            self.after_all(events.drop_last()).after(events.last())
        }
    }
}

/// What the owner is told when it reports `events[i]`, having reported the
/// events before it in turn.
pub open spec fn action_at<S, H>(
    state: StreamState<S, H>,
    events: Seq<Option<HandshakeOutcome<S>>>,
    i: int,
) -> IoAction {
    state.after_all(events.take(i)).action(events[i])
}

/// Whether `event` leaves a handshake unresolved: the owner reported nothing,
/// or that the computation would block.
pub open spec fn is_unresolved<S>(event: Option<HandshakeOutcome<S>>) -> bool {
    event is None || event == Some(HandshakeOutcome::<S>::Pending)
}

/// A call polls the handshake at most once: the owner is told to poll exactly
/// when the handshake is in flight and it has nothing to report, so the answer
/// to an outcome is always one that ends the call.
pub proof fn lemma_one_poll_per_call<S, H>(
    state: StreamState<S, H>,
    event: Option<HandshakeOutcome<S>>,
)
    ensures
        state.action(event) is PollHandshake <==> state.is_negotiating() && event is None,
        state.handshake_step(event) is Await <==> state.is_negotiating() && is_unresolved(event),
{
}

/// While the peer does not complete the handshake, I/O stays pending: a
/// connection whose handshake is in flight keeps its state, computation
/// included, over any number of calls whose polls would block, and each call
/// is answered with "poll the handshake" or "not ready", never with a result.
pub proof fn lemma_pending_until_resolved<S, H>(
    state: StreamState<S, H>,
    events: Seq<Option<HandshakeOutcome<S>>>,
)
    requires
        state.is_negotiating(),
        forall|i: int| 0 <= i < events.len() ==> is_unresolved(#[trigger] events[i]),
    ensures
        state.after_all(events) == state,
        forall|i: int|
            0 <= i < events.len() ==> #[trigger] action_at(state, events, i) == (if events[i]
                is None {
                IoAction::PollHandshake
            } else {
                IoAction::Pending
            }),
    decreases events.len(),
{
    if events.len() > 0 {
        lemma_pending_until_resolved(state, events.drop_last());
    }
    assert forall|i: int| 0 <= i < events.len() implies #[trigger] action_at(state, events, i) == (
    if events[i] is None {
        IoAction::PollHandshake
    } else {
        IoAction::Pending
    }) by {
        lemma_pending_until_resolved(state, events.take(i));
    }
}

/// A failed handshake is final: whatever the owner reports afterwards, the
/// state stays the cached failure and every call is answered with that same
/// failure. No call is answered with "poll the handshake", so the handshake is
/// never attempted again.
pub proof fn lemma_failure_is_sticky<S, H>(
    state: StreamState<S, H>,
    events: Seq<Option<HandshakeOutcome<S>>>,
)
    requires
        state.is_failed(),
    ensures
        state.after_all(events) == state,
        forall|i: int|
            0 <= i < events.len() ==> #[trigger] action_at(state, events, i) == IoAction::Fail(
                handshake_failure(state->AcceptError_0),
            ),
    decreases events.len(),
{
    if events.len() > 0 {
        lemma_failure_is_sticky(state, events.drop_last());
    }
    assert forall|i: int| 0 <= i < events.len() implies #[trigger] action_at(state, events, i)
        == IoAction::Fail(handshake_failure(state->AcceptError_0)) by {
        lemma_failure_is_sticky(state, events.take(i));
    }
}

/// An established connection stays established with the stream it has:
/// whatever the owner reports, every call is answered with "run the
/// operation", and the handshake is never polled.
pub proof fn lemma_established_is_final<S, H>(
    state: StreamState<S, H>,
    events: Seq<Option<HandshakeOutcome<S>>>,
)
    requires
        state is Accepted,
    ensures
        state.after_all(events) == state,
        forall|i: int|
            0 <= i < events.len() ==> #[trigger] action_at(state, events, i) == IoAction::Delegate,
    decreases events.len(),
{
    if events.len() > 0 {
        lemma_established_is_final(state, events.drop_last());
    }
    assert forall|i: int| 0 <= i < events.len() implies #[trigger] action_at(state, events, i)
        == IoAction::Delegate by {
        lemma_established_is_final(state, events.take(i));
    }
}

/// The transport under a connection becomes available exactly when the
/// handshake succeeds, within the same call, and from then on for good: it is
/// not available while the handshake is unresolved, it is available right
/// after the owner reported success, and once available it stays so.
pub proof fn lemma_handle_follows_establishment<S, H>(
    state: StreamState<S, H>,
    event: Option<HandshakeOutcome<S>>,
    later: Seq<Option<HandshakeOutcome<S>>>,
)
    ensures
        state.is_negotiating() && is_unresolved(event) ==> !(state.after(event) is Accepted),
        event matches Some(HandshakeOutcome::Established(stream)) ==> (state.is_negotiating()
            ==> state.after(event) == StreamState::<S, H>::Accepted(MaybeTls::Tls(stream))),
        state is Accepted ==> state.after_all(later) == state,
        state.after(event) is Accepted ==> state.after(event).after_all(later) is Accepted,
{
    if state is Accepted {
        lemma_established_is_final(state, later);
    }
    if state.after(event) is Accepted {
        lemma_established_is_final(state.after(event), later);
    }
}

/// One incoming connection: the peer's address, fixed when the connection was
/// accepted, and the state of the handshake.
#[verifier::reject_recursive_types(S)]
pub struct MaybeTlsIncomingStream<S, H> {
    state: StreamState<S, H>,
    peer_addr: SocketAddress,
}

/// `SslStream::get_ref` of tokio-openssl: the transport under a TLS stream.
/// Nothing is claimed of the result.
#[verifier::external_body]
fn tls_get_ref<S>(stream: &SslStream<S>) -> (transport: &S) {
    stream.get_ref()
}

/// `SslStream::get_mut` of tokio-openssl: the transport under a TLS stream,
/// for writing. Nothing is claimed of the result.
#[verifier::external_body]
fn tls_get_mut<S>(stream: &mut SslStream<S>) -> (transport: &mut S) {
    stream.get_mut()
}

impl<S, H> MaybeTlsIncomingStream<S, H> {
    /// The state of the handshake.
    pub closed spec fn state(&self) -> StreamState<S, H> {
        self.state
    }

    /// The peer's address.
    pub closed spec fn spec_peer_addr(&self) -> SocketAddress {
        self.peer_addr
    }

    /// The connection after its owner reported `event`: the state moves as
    /// `StreamState::after` says, the address stays.
    pub closed spec fn after(self, event: Option<HandshakeOutcome<S>>) -> Self {
        Self { state: self.state.after(event), peer_addr: self.peer_addr }
    }

    /// The connection after its owner reported each of `events` in turn.
    pub open spec fn after_all(self, events: Seq<Option<HandshakeOutcome<S>>>) -> Self
        decreases events.len(),
    {
        if events.len() == 0 {
            self
        } else {
            self.after_all(events.drop_last()).after(events.last())
        }
    }

    /// What `after` does to the two parts of a connection.
    pub proof fn lemma_after(self, event: Option<HandshakeOutcome<S>>)
        ensures
            self.after(event).state() == self.state().after(event),
            self.after(event).spec_peer_addr() == self.spec_peer_addr(),
    {
    }

    /// The peer's address is fixed for the lifetime of a connection: whatever
    /// its owner reports, and however the handshake ends, the address is the
    /// one that the connection was made with, and the state is the one that
    /// the state machine gives.
    pub proof fn lemma_peer_addr_is_fixed(self, events: Seq<Option<HandshakeOutcome<S>>>)
        ensures
            self.after_all(events).spec_peer_addr() == self.spec_peer_addr(),
            self.after_all(events).state() == self.state().after_all(events),
        decreases events.len(),
    {
        if events.len() > 0 {
            self.lemma_peer_addr_is_fixed(events.drop_last());
        }
    }

    /// Wraps a transport that was just accepted.
    ///
    /// Without an acceptor the connection is established at once. With one,
    /// `start` makes the handshake computation from the acceptor and the
    /// transport, and the connection waits for it; no step of it is run here.
    pub fn new<F: FnOnce(SslAcceptor, S) -> H>(
        stream: S,
        peer_addr: SocketAddress,
        acceptor: Option<SslAcceptor>,
        start: F,
    ) -> (connection: Self)
        requires
            acceptor matches Some(a) ==> call_requires(start, (a, stream)),
        ensures
            connection.spec_peer_addr() == peer_addr,
            acceptor is None ==> connection.state() == StreamState::<S, H>::Accepted(
                MaybeTls::Raw(stream),
            ),
            acceptor matches Some(a) ==> connection.state() matches StreamState::Accepting(h)
                && call_ensures(start, (a, stream), h),
    {
        let state = match acceptor {
            Some(acceptor) => StreamState::Accepting(start(acceptor, stream)),
            None => StreamState::Accepted(MaybeTls::Raw(stream)),
        };
        Self { peer_addr, state }
    }

    /// The peer's address, whatever the state of the handshake.
    pub fn peer_addr(&self) -> (addr: SocketAddress)
        ensures
            addr == self.spec_peer_addr(),
    {
        self.peer_addr
    }

    /// The transport under the connection, once it is established.
    pub fn get_ref(&self) -> (transport: Option<&S>)
        ensures
            transport is Some <==> self.state() is Accepted,
            self.state() matches StreamState::Accepted(MaybeTls::Raw(s)) ==> transport == Some(&s),
    {
        match &self.state {
            StreamState::Accepted(stream) => Some(
                match stream {
                    MaybeTls::Raw(s) => s,
                    MaybeTls::Tls(s) => tls_get_ref(s),
                },
            ),
            StreamState::Accepting(_) => None,
            StreamState::AcceptError(_) => None,
        }
    }

    /// The established stream, for the operation that `IoAction::Delegate`
    /// asks for.
    pub fn stream_mut(&mut self) -> (stream: Option<&mut MaybeTlsStream<S>>)
        ensures
            stream is Some <==> old(self).state() is Accepted,
            stream is None ==> *final(self) == *old(self),
            stream matches Some(s) ==> *s == old(self).state()->Accepted_0 && final(self).state()
                == StreamState::<S, H>::Accepted(*final(s)),
            final(self).spec_peer_addr() == old(self).spec_peer_addr(),
    {
        match &mut self.state {
            StreamState::Accepted(stream) => Some(stream),
            _ => None,
        }
    }

    /// The handshake computation, for the step that `IoAction::PollHandshake`
    /// or `HandshakeStep::Await` asks for.
    pub fn handshake_mut(&mut self) -> (handshake: Option<&mut H>)
        ensures
            handshake is Some <==> old(self).state() is Accepting,
            handshake is None ==> *final(self) == *old(self),
            handshake matches Some(h) ==> *h == old(self).state()->Accepting_0 && final(
                self
            ).state() == StreamState::<S, H>::Accepting(*final(h)),
            final(self).spec_peer_addr() == old(self).spec_peer_addr(),
    {
        match &mut self.state {
            StreamState::Accepting(handshake) => Some(handshake),
            _ => None,
        }
    }

    /// One decision of an I/O call (read, write, flush or shutdown).
    ///
    /// The owner starts each call with no event. Told to poll the handshake, it
    /// does so and comes back with the outcome. A handshake that succeeds
    /// within the call makes the connection secured and the operation is run
    /// at once; one that fails makes the failure permanent: it is returned now
    /// and on every later call, and the handshake is never polled again.
    pub fn poll_io(&mut self, event: Option<HandshakeOutcome<S>>) -> (action: IoAction)
        ensures
            *final(self) == old(self).after(event),
            final(self).state() == old(self).state().after(event),
            final(self).spec_peer_addr() == old(self).spec_peer_addr(),
            action == old(self).state().action(event),
    {
        match &self.state {
            StreamState::Accepted(_) => {
                return IoAction::Delegate;
            },
            StreamState::AcceptError(message) => {
                return IoAction::Fail(
                    IoFailure { kind: IoFailureKind::Other, message: Some(message.clone()) },
                );
            },
            StreamState::Accepting(_) => {},
        }
        match event {
            None => IoAction::PollHandshake,
            Some(HandshakeOutcome::Pending) => IoAction::Pending,
            Some(HandshakeOutcome::Established(stream)) => {
                self.state = StreamState::Accepted(MaybeTls::Tls(stream));
                IoAction::Delegate
            },
            Some(HandshakeOutcome::Failed(message)) => {
                self.state = StreamState::AcceptError(message.clone());
                IoAction::Fail(IoFailure { kind: IoFailureKind::Other, message: Some(message) })
            },
        }
    }

    /// One decision of an explicit handshake: as an I/O call, but nothing is
    /// run on the stream once it is established.
    pub fn handshake(&mut self, event: Option<HandshakeOutcome<S>>) -> (step: HandshakeStep)
        ensures
            *final(self) == old(self).after(event),
            final(self).state() == old(self).state().after(event),
            final(self).spec_peer_addr() == old(self).spec_peer_addr(),
            step == old(self).state().handshake_step(event),
    {
        match self.poll_io(event) {
            IoAction::Delegate => HandshakeStep::Established,
            IoAction::PollHandshake => HandshakeStep::Await,
            IoAction::Pending => HandshakeStep::Await,
            IoAction::Fail(failure) => match failure.message {
                Some(message) => HandshakeStep::Failed(message),
                None => HandshakeStep::Await,
            },
        }
    }

    /// The transport to shut down, or the failure of a connection that is not
    /// established: a handshake in flight or failed leaves nothing to close.
    pub fn shutdown(&mut self) -> (transport: Result<&mut S, IoFailure>)
        ensures
            transport is Ok <==> old(self).state() is Accepted,
            transport matches Err(failure) ==> failure == not_connected() && *final(self) == *old(
                self
            ),
            old(self).state() matches StreamState::Accepted(MaybeTls::Raw(s)) ==> transport matches Ok(
                t
            ) && *t == s && final(self).state() == StreamState::<S, H>::Accepted(
                MaybeTls::Raw(*final(t)),
            ),
            old(self).state().is_secured() ==> final(self).state().is_secured(),
            final(self).spec_peer_addr() == old(self).spec_peer_addr(),
    {
        match &mut self.state {
            StreamState::Accepted(stream) => Ok(
                match stream {
                    MaybeTls::Raw(s) => s,
                    MaybeTls::Tls(s) => tls_get_mut(s),
                },
            ),
            StreamState::Accepting(_) | StreamState::AcceptError(_) => Err(
                IoFailure { kind: IoFailureKind::NotConnected, message: None },
            ),
        }
    }

    /// Takes note of the keep-alive options. No socket option is derived from
    /// them yet: the call succeeds in every state and changes nothing.
    pub fn set_keepalive(&mut self, _keepalive: TcpKeepaliveConfig) -> (done: Result<(), IoFailure>)
        ensures
            done is Ok,
            *final(self) == *old(self),
    {
        Ok(())
    }

    /// The transport whose receive buffer is to be set to `bytes`, with that
    /// size, or the failure of a connection that is not established.
    pub fn set_receive_buffer_bytes(&mut self, bytes: usize) -> (tuned: Result<
        (&S, usize),
        IoFailure,
    >)
        ensures
            *final(self) == *old(self),
            tuned is Ok <==> old(self).state() is Accepted,
            tuned matches Ok(pair) ==> pair.1 == bytes,
            old(self).state() matches StreamState::Accepted(MaybeTls::Raw(s)) ==> tuned == Ok::<
                (&S, usize),
                IoFailure,
            >((&s, bytes)),
            tuned matches Err(failure) ==> failure.kind == IoFailureKind::NotConnected && (
            failure.message matches Some(message) && message@ == receive_buffer_refusal()),
    {
        match self.get_ref() {
            Some(stream) => Ok((stream, bytes)),
            None => Err(
                IoFailure {
                    kind: IoFailureKind::NotConnected,
                    message: Some(
                        String::from_str(
                            "Can't set receive buffer size on connection that has not been accepted yet.",
                        ),
                    ),
                },
            ),
        }
    }
}

} // verus!
