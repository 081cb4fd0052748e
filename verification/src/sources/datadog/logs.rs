//! The source that takes the logs that Datadog agents send.

use crate::config::{DataType, Resource};
use crate::sources::util::{
    text_field, views, ErrorMessage, HttpSourceAuthConfig, Insertion, InsertionView,
};
use crate::tls::settings::TlsConfig;
use crate::tls::SocketAddress;
use vstd::prelude::*;
use vstd::string::StrSliceExecFns;
use vstd::string::StringExecFns;

verus! {

/// The configuration of the source.
pub struct DatadogLogsConfig {
    pub address: SocketAddress,
    pub tls: Option<TlsConfig>,
    pub auth: Option<HttpSourceAuthConfig>,
}

/// The address that the example configuration listens on: port 8080 of every
/// IPv4 interface.
pub open spec fn default_address() -> SocketAddress {
    SocketAddress::V4 { ip: 0, port: 8080 }
}

impl DatadogLogsConfig {
    /// The configuration that is written out as an example: it listens on
    /// `default_address()` with neither security nor credentials.
    pub fn generate_config() -> (config: Self)
        ensures
            config.address == default_address(),
            config.tls is None,
            config.auth is None,
    {
        Self { address: SocketAddress::V4 { ip: 0, port: 8080 }, tls: None, auth: None }
    }

    /// The kinds of event that the source gives: logs.
    pub fn output_type(&self) -> (kind: DataType)
        ensures
            kind == DataType::Log,
    {
        DataType::Log
    }

    /// The name of the source.
    pub fn source_type(&self) -> (name: &'static str)
        ensures
            name@ == "datadog_logs"@,
    {
        "datadog_logs"
    }

    /// What the source needs for itself: the address that it listens on.
    pub fn resources(&self) -> (needed: Vec<Resource>)
        ensures
            needed@ == seq![Resource::Port(self.address, crate::config::Protocol::Tcp)],
    {
        let mut needed = Vec::new();
        needed.push(Resource::tcp(self.address));
        needed
    }
}

/// The number of characters of an API key.
pub const API_KEY_LEN: usize = 32;

/// The path under which agents send logs, up to where the API key may stand.
pub open spec fn input_prefix() -> Seq<char> {
    seq!['/', 'v', '1', '/', 'i', 'n', 'p', 'u', 't', '/']
}

/// Whether `c` is an ASCII letter or digit.
pub open spec fn is_alnum(c: char) -> bool {
    ('0' <= c && c <= '9') || ('a' <= c && c <= 'z') || ('A' <= c && c <= 'Z')
}

/// The API key that a request path carries: the `API_KEY_LEN` ASCII letters
/// and digits that follow `input_prefix()` at the start of the path, whatever
/// comes after them.
pub open spec fn api_key_in_path(path: Seq<char>) -> Option<Seq<char>> {
    let start = input_prefix().len() as int;
    let end = start + API_KEY_LEN as int;
    if path.len() >= end && path.subrange(0, start) == input_prefix() && (forall|i: int|
        start <= i < end ==> is_alnum(#[trigger] path[i])) {
        Some(path.subrange(start, end))
    } else {
        None
    }
}

/// The API key of a request, given the value of its `dd-api-key` header: the
/// one in the path, and where the path holds none, the one of the header.
pub open spec fn api_key_of(header: Option<Seq<char>>, path: Seq<char>) -> Option<Seq<char>> {
    match api_key_in_path(path) {
        Some(in_path) => Some(in_path),
        None => header,
    }
}

/// The text of a key that may be absent.
pub open spec fn text_of(key: Option<String>) -> Option<Seq<char>> {
    match key {
        Some(key) => Some(key@),
        None => None,
    }
}

/// The text of a header value that may be absent.
pub open spec fn header_text(header: Option<&str>) -> Option<Seq<char>> {
    match header {
        Some(value) => Some(value@),
        None => None,
    }
}

/// Tells whether `c` is an ASCII letter or digit.
fn char_is_alnum(c: char) -> (alnum: bool)
    ensures
        alnum == is_alnum(c),
{
    ('0' <= c && c <= '9') || ('a' <= c && c <= 'z') || ('A' <= c && c <= 'Z')
}

/// The API key of a request: the one in the path, and where the path holds
/// none, the one that the `dd-api-key` header gave, if there was such a header
/// and its value is text.
pub fn extract_api_key(header: Option<&str>, path: &str) -> (key: Option<String>)
    ensures
        text_of(key) == api_key_of(header_text(header), path@),
{
    let prefix = "/v1/input/";
    proof {
        reveal_strlit("/v1/input/");
        assert(prefix@ =~= input_prefix());
    }
    let len: usize = path.unicode_len();
    let start: usize = 10;
    let end: usize = start + API_KEY_LEN;
    let mut matched: bool = len >= end;
    let mut i: usize = 0;
    while matched && i < end
        invariant
            len == path@.len(),
            start == 10,
            end == 42,
            i <= end,
            prefix@ == input_prefix(),
            matched ==> len >= end,
            matched ==> forall|j: int| 0 <= j < i && j < start ==> path@[j] == input_prefix()[j],
            matched ==> forall|j: int| start <= j < i ==> is_alnum(#[trigger] path@[j]),
            !matched ==> api_key_in_path(path@) is None,
        decreases end - i, matched as int,
    {
        let c = path.get_char(i);
        if i < start {
            if c != prefix.get_char(i) {
                matched = false;
                proof {
                    assert(path@.subrange(0, 10)[i as int] == path@[i as int]);
                }
            }
        } else {
            if !char_is_alnum(c) {
                matched = false;
            }
        }
        if matched {
            i = i + 1;
        }
    }
    if matched {
        proof {
            assert(path@.subrange(0, 10) =~= input_prefix());
        }
        Some(String::from_str(path.substring_char(start, end)))
    } else {
        match header {
            Some(value) => Some(String::from_str(value)),
            None => None,
        }
    }
}

/// The source itself: what it makes of one request.
pub struct DatadogLogsSource {}

/// What one request gives: its events, and the fields that each of them is
/// given, in the order in which they are given.
pub struct Built<E> {
    pub events: Vec<E>,
    pub insertions: Vec<Insertion>,
}

/// The fields that each event of a request is given: the name of the source
/// under `source_type_key`, unless the event says where it is from, and the
/// API key of the request, if it had one, as `dd_api_key`, whatever the event
/// holds under that name.
pub open spec fn insertions_for(source_type_key: Seq<char>, api_key: Option<Seq<char>>) -> Seq<
    InsertionView,
> {
    let source = seq![text_field(source_type_key, "datadog_logs"@, false)];
    match api_key {
        Some(key) => source.push(text_field("dd_api_key"@, key, true)),
        None => source,
    }
}

/// Whether `built` is what a request without events gives: no events, and
/// so nothing to give them.
pub open spec fn gives_nothing<E>(built: Result<Built<E>, ErrorMessage>) -> bool {
    built matches Ok(given) && given.events@.len() == 0 && given.insertions@.len() == 0
}

/// Whether `built` is what a request gives whose body was decoded as
/// `decoded` and whose events are given `insertions`: the refusal, or the
/// events with what they are given.
pub open spec fn gives<E>(
    built: Result<Built<E>, ErrorMessage>,
    decoded: Result<Vec<E>, ErrorMessage>,
    insertions: Seq<InsertionView>,
) -> bool {
    match decoded {
        Err(refusal) => built == Err::<Built<E>, ErrorMessage>(refusal),
        Ok(events) => built matches Ok(given) && given.events == events && views(
            given.insertions@,
        ) == insertions,
    }
}

impl DatadogLogsSource {
    /// The fields that each event of a request with the API key `api_key` is
    /// given.
    pub fn insertions(&self, source_type_key: &str, api_key: &Option<String>) -> (added: Vec<
        Insertion,
    >)
        ensures
            views(added@) == insertions_for(source_type_key@, text_of(*api_key)),
    {
        let mut added: Vec<Insertion> = Vec::new();
        added.push(Insertion::text(source_type_key, "datadog_logs", false));
        assert(views(added@) =~= seq![text_field(source_type_key@, "datadog_logs"@, false)]);
        match api_key {
            Some(key) => {
                let ghost before = added@;
                added.push(Insertion::text("dd_api_key", key.as_str(), true));
                assert(views(added@) =~= views(before).push(text_field("dd_api_key"@, key@, true)));
            },
            None => {},
        }
        added
    }

    /// What one request gives.
    ///
    /// An agent may send an empty body to keep the connection alive: it gives
    /// no events, and nothing of it is decoded. Any other body is decoded by
    /// `decode`, once; what that refuses is refused, and the events that it
    /// gives are given the name of the source under `source_type_key` and the
    /// API key of the request, as `insertions_for` says.
    pub fn build_event<E, D: FnOnce() -> Result<Vec<E>, ErrorMessage>>(
        &self,
        body: &[u8],
        header: Option<&str>,
        request_path: &str,
        source_type_key: &str,
        decode: D,
    ) -> (built: Result<Built<E>, ErrorMessage>)
        requires
            body@.len() > 0 ==> call_requires(decode, ()),
        ensures
            body@.len() == 0 ==> gives_nothing(built),
            body@.len() > 0 ==> exists|decoded: Result<Vec<E>, ErrorMessage>| #[trigger]
                call_ensures(decode, (), decoded) && gives(
                    built,
                    decoded,
                    insertions_for(
                        source_type_key@,
                        api_key_of(header_text(header), request_path@),
                    ),
                ),
    {
        if body.len() == 0 {
            return Ok(Built { events: Vec::new(), insertions: Vec::new() });
        }
        let api_key = extract_api_key(header, request_path);
        let decoded = decode();
        let built = match decoded {
            Ok(events) => Ok(
                Built { events, insertions: self.insertions(source_type_key, &api_key) },
            ),
            Err(refusal) => Err(refusal),
        };
        proof {
            assert(call_ensures(decode, (), decoded));
        }
        built
    }
}

} // verus!
