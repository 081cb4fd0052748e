//! The second version of the source: events as HTTP requests.

use crate::config::{DataType, Resource};
use crate::sources::util::{
    text_field, views, ErrorMessage, FieldValue, FieldValueView, HttpSourceAuthConfig, Insertion,
    InsertionView,
};
use crate::tls::settings::TlsConfig;
use crate::tls::SocketAddress;
use vstd::prelude::*;
use vstd::string::StringExecFns;

verus! {

/// The configuration of the second version of the source.
pub struct VectorSourceConfig {
    pub address: SocketAddress,
    pub encoding: Encoding,
    /// The request headers that are copied into each event.
    pub headers: Vec<String>,
    /// The query parameters that are copied into each event.
    pub query_parameters: Vec<String>,
    pub tls: Option<TlsConfig>,
    pub auth: Option<HttpSourceAuthConfig>,
}

/// The codecs of the source.
#[derive(Clone, Copy, Debug, PartialEq, Eq, Structural)]
pub enum Encoding {
    Json,
}

impl Default for Encoding {
    fn default() -> (encoding: Self)
        ensures
            encoding == Encoding::Json,
    {
        Encoding::Json
    }
}

/// The address that the example configuration listens on: port 9000 of every
/// IPv4 interface.
pub open spec fn default_address() -> SocketAddress {
    SocketAddress::V4 { ip: 0, port: 9000 }
}

impl VectorSourceConfig {
    /// The configuration that is written out as an example: it listens on
    /// `default_address()` for JSON, copies nothing from the request, and has
    /// neither security nor credentials.
    pub fn generate_config() -> (config: Self)
        ensures
            config.address == default_address(),
            config.encoding == Encoding::Json,
            config.headers@.len() == 0,
            config.query_parameters@.len() == 0,
            config.tls is None,
            config.auth is None,
    {
        Self {
            address: SocketAddress::V4 { ip: 0, port: 9000 },
            encoding: Encoding::default(),
            headers: Vec::new(),
            query_parameters: Vec::new(),
            tls: None,
            auth: None,
        }
    }

    /// The kinds of event that the source gives: all of them.
    pub fn output_type(&self) -> (kind: DataType)
        ensures
            kind == DataType::Any,
    {
        DataType::Any
    }

    /// The name of the source.
    pub fn source_type(&self) -> (name: &'static str)
        ensures
            name@ == "vector"@,
    {
        "vector"
    }

    /// What the source needs for itself: the address that it listens on.
    pub fn resources(&self) -> (needed: Vec<Resource>)
        ensures
            needed@ == seq![Resource::Port(self.address, crate::config::Protocol::Tcp)],
    {
        let mut needed = Vec::new();
        needed.push(Resource::tcp(self.address));
        needed
    }
}

/// A JSON value as far as the source looks into it: which kind of value it
/// is, for an object what it holds (`O`), and for an array its items.
pub enum JsonValue<O> {
    Object(O),
    Array(Vec<JsonValue<O>>),
    String,
    Number,
    Bool,
    Null,
}

/// The status code of the answer to a request with a bad body.
pub const BAD_REQUEST: u16 = 400;

/// The name of the kind of a JSON value.
pub open spec fn kind_name<O>(value: JsonValue<O>) -> Seq<char> {
    match value {
        JsonValue::Object(_) => "Object"@,
        JsonValue::Array(_) => "Array"@,
        JsonValue::String => "String"@,
        JsonValue::Number => "Number"@,
        JsonValue::Bool => "Bool"@,
        JsonValue::Null => "Null"@,
    }
}

/// Whether `answer` refuses a body as bad JSON, with `reason` as the reason.
pub open spec fn is_json_error(answer: ErrorMessage, reason: Seq<char>) -> bool {
    answer.code == BAD_REQUEST && answer.message@ == "Bad JSON: "@ + reason
}

/// Why a value that should be an object is refused.
pub open spec fn expected_object<O>(value: JsonValue<O>) -> Seq<char> {
    "Expected Object, got "@ + kind_name(value)
}

/// Why a body that is neither an array nor an object is refused.
pub open spec fn expected_array_or_object<O>(value: JsonValue<O>) -> Seq<char> {
    "Expected Array or Object, got "@ + kind_name(value) + "."@
}

/// The first item of `items` that is no object, if there is one.
pub open spec fn first_non_object<O>(items: Seq<JsonValue<O>>) -> Option<int> {
    if exists|i: int| 0 <= i < items.len() && !(#[trigger] items[i] is Object) {
        Some(
            choose|i: int|
                0 <= i < items.len() && !(#[trigger] items[i] is Object) && forall|j: int|
                    0 <= j < i ==> #[trigger] items[j] is Object,
        )
    } else {
        None
    }
}

/// What the objects of a body hold, in their order, or why the body is
/// refused: the body is an array of objects, or one object, which counts as an
/// array of one. An array is refused for its first item that is no object, any
/// other body for its kind.
pub open spec fn objects_of<O>(value: JsonValue<O>) -> Result<Seq<O>, Seq<char>> {
    match value {
        JsonValue::Object(held) => Ok(seq![held]),
        JsonValue::Array(items) => match first_non_object(items@) {
            None => Ok(Seq::new(items@.len(), |i: int| items@[i]->Object_0)),
            Some(at) => Err(expected_object(items@[at])),
        },
        _ => Err(expected_array_or_object(value)),
    }
}

/// Whether `decoded` gives the objects that `expected` holds, or refuses the
/// body as bad JSON for the reason that `expected` holds.
pub open spec fn decodes_to<O>(
    decoded: Result<Vec<O>, ErrorMessage>,
    expected: Result<Seq<O>, Seq<char>>,
) -> bool {
    match expected {
        Ok(objects) => decoded matches Ok(given) && given@ == objects,
        Err(reason) => decoded matches Err(answer) && is_json_error(answer, reason),
    }
}

/// The name of the kind of a JSON value.
pub fn json_value_to_type_string<O>(value: &JsonValue<O>) -> (name: &'static str)
    ensures
        name@ == kind_name(*value),
{
    match value {
        JsonValue::Object(_) => "Object",
        JsonValue::Array(_) => "Array",
        JsonValue::String => "String",
        JsonValue::Number => "Number",
        JsonValue::Bool => "Bool",
        JsonValue::Null => "Null",
    }
}

/// The answer to a request whose body is bad JSON, for the reason `s`.
pub fn json_error(s: String) -> (answer: ErrorMessage)
    ensures
        is_json_error(answer, s@),
{
    ErrorMessage::new(BAD_REQUEST, String::from_str("Bad JSON: ").concat(s.as_str()))
}

/// What the object `value` holds; any other value is refused with its kind.
pub fn json_parse_object<O>(value: JsonValue<O>) -> (parsed: Result<O, ErrorMessage>)
    ensures
        value matches JsonValue::Object(held) ==> parsed == Ok::<O, ErrorMessage>(held),
        !(value is Object) ==> (parsed matches Err(answer) && is_json_error(
            answer,
            expected_object(value),
        )),
{
    match value {
        JsonValue::Object(held) => Ok(held),
        _ => {
            let name = json_value_to_type_string(&value);
            Err(json_error(String::from_str("Expected Object, got ").concat(name)))
        },
    }
}

/// What the objects of a body hold, in their order, or the answer that
/// refuses the body.
pub fn json_parse_array_of_object<O>(value: JsonValue<O>) -> (parsed: Result<Vec<O>, ErrorMessage>)
    ensures
        decodes_to(parsed, objects_of(value)),
{
    match value {
        JsonValue::Array(items) => {
            let ghost all = items@;
            let ghost whole = items;
            let mut objects: Vec<O> = Vec::new();
            for item in it: items
                invariant
                    value == JsonValue::Array(whole),
                    whole@ == all,
                    it.seq() == all,
                    objects@.len() == it.index(),
                    forall|i: int|
                        0 <= i < it.index() ==> all[i] == JsonValue::Object(#[trigger] objects@[i]),
            {
                match json_parse_object(item) {
                    Ok(held) => {
                        objects.push(held);
                    },
                    Err(answer) => {
                        proof {
                            let at = it.index() as int;
                            assert(!(all[at] is Object));
                            assert forall|j: int| 0 <= j < at implies #[trigger] all[j] is Object by {
                                assert(all[j] == JsonValue::Object(objects@[j]));
                            }
                            let found = first_non_object(all)->0;
                            assert(0 <= found < all.len() && !(all[found] is Object) && forall|j: int|
                                0 <= j < found ==> #[trigger] all[j] is Object);
                            assert(found == at);
                        }
                        return Err(answer);
                    },
                }
            }
            proof {
                assert forall|j: int| 0 <= j < all.len() implies #[trigger] all[j] is Object by {
                    assert(all[j] == JsonValue::Object(objects@[j]));
                }
                assert(first_non_object(all) is None);
                assert(objects@ =~= Seq::new(all.len(), |i: int| all[i]->Object_0));
            }
            Ok(objects)
        },
        JsonValue::Object(held) => {
            let mut objects: Vec<O> = Vec::new();
            objects.push(held);
            Ok(objects)
        },
        _ => {
            let name = json_value_to_type_string(&value);
            Err(
                json_error(
                    String::from_str("Expected Array or Object, got ").concat(name).concat("."),
                ),
            )
        },
    }
}

/// What the objects of a body hold, given what reading the body as JSON
/// gave: the value, or the text of the error.
pub fn decode_body<O>(parsed_json: Result<JsonValue<O>, String>, enc: Encoding) -> (decoded: Result<
    Vec<O>,
    ErrorMessage,
>)
    ensures
        parsed_json matches Err(error) ==> decoded matches Err(answer) && is_json_error(
            answer,
            "Error parsing Json: "@ + error@,
        ),
        parsed_json matches Ok(value) ==> decodes_to(decoded, objects_of(value)),
{
    match enc {
        Encoding::Json => {
            let parsed_json = match parsed_json {
                Ok(value) => value,
                Err(error) => {
                    return Err(
                        json_error(String::from_str("Error parsing Json: ").concat(error.as_str())),
                    );
                },
            };
            json_parse_array_of_object(parsed_json)
        },
    }
}

/// The field that an event is given for a configured header named `name`
/// whose value in the request is `found`: the bytes of the value, or the
/// absence of a value where the request has no such header. It takes the
/// place of what the event holds under that name.
pub open spec fn header_field(name: Seq<char>, found: Option<Vec<u8>>) -> InsertionView {
    InsertionView {
        key: name,
        value: match found {
            Some(bytes) => FieldValueView::Bytes(bytes@),
            None => FieldValueView::Null,
        },
        overwrite: true,
    }
}

/// Whether `added` is the field that the configured header `name` gives,
/// with the value that `lookup` finds for the name.
pub open spec fn copies_header<F: Fn(&String) -> Option<Vec<u8>>>(
    name: String,
    lookup: F,
    added: Insertion,
) -> bool {
    exists|found: Option<Vec<u8>>| #[trigger]
        call_ensures(lookup, (&name,), found) && added@ == header_field(name@, found)
}

/// Whether `added` are the fields that the configured headers give: one for
/// each name of `headers_config`, in its order, with the value that `lookup`
/// finds for the name.
pub open spec fn copies_headers<F: Fn(&String) -> Option<Vec<u8>>>(
    headers_config: Seq<String>,
    lookup: F,
    added: Seq<Insertion>,
) -> bool {
    &&& added.len() == headers_config.len()
    &&& forall|i: int|
        0 <= i < headers_config.len() ==> copies_header(headers_config[i], lookup, #[trigger] added[i])
}

/// The fields that the configured headers give to each event of a request:
/// for each name of `headers_config`, in its order, the value that the
/// request has for it, which `lookup` finds.
pub fn add_headers<F: Fn(&String) -> Option<Vec<u8>>>(headers_config: &Vec<String>, lookup: F) -> (added:
    Vec<Insertion>)
    requires
        forall|i: int|
            0 <= i < headers_config@.len() ==> call_requires(lookup, (&#[trigger] headers_config@[i],)),
    ensures
        copies_headers(headers_config@, lookup, added@),
{
    let mut added: Vec<Insertion> = Vec::new();
    let mut i: usize = 0;
    while i < headers_config.len()
        invariant
            i <= headers_config@.len(),
            forall|j: int|
                0 <= j < headers_config@.len() ==> call_requires(
                    lookup,
                    (&#[trigger] headers_config@[j],),
                ),
            copies_headers(headers_config@.take(i as int), lookup, added@),
        decreases headers_config@.len() - i,
    {
        let name = &headers_config[i];
        let found = lookup(name);
        let ghost before = added@;
        let value = match &found {
            Some(bytes) => FieldValue::Bytes(bytes.clone()),
            None => FieldValue::Null,
        };
        added.push(Insertion { key: name.clone(), value, overwrite: true });
        proof {
            let config = headers_config@.take(i as int + 1);
            assert(call_ensures(lookup, (name,), found));
            assert(copies_header(*name, lookup, added@[i as int]));
            assert forall|j: int| 0 <= j < config.len() implies copies_header(
                config[j],
                lookup,
                #[trigger] added@[j],
            ) by {
                if j < i {
                    assert(headers_config@.take(i as int)[j] == config[j]);
                    assert(added@[j] == before[j]);
                }
            }
        }
        i = i + 1;
    }
    proof {
        assert(headers_config@.take(i as int) =~= headers_config@);
    }
    added
}

/// The field that an event is given for a configured query parameter named
/// `name` whose value in the request is `found`: the text of the value, or
/// the absence of a value where the request has no such parameter. It takes
/// the place of what the event holds under that name.
pub open spec fn query_field(name: Seq<char>, found: Option<String>) -> InsertionView {
    InsertionView {
        key: name,
        value: match found {
            Some(text) => FieldValueView::Text(text@),
            None => FieldValueView::Null,
        },
        overwrite: true,
    }
}

/// Whether `added` is the field that the configured query parameter `name`
/// gives, with the value that `lookup` finds for the name.
pub open spec fn copies_query_parameter<F: Fn(&String) -> Option<String>>(
    name: String,
    lookup: F,
    added: Insertion,
) -> bool {
    exists|found: Option<String>| #[trigger]
        call_ensures(lookup, (&name,), found) && added@ == query_field(name@, found)
}

/// Whether `added` are the fields that the configured query parameters give:
/// one for each name of `query_parameters_config`, in its order, with the
/// value that `lookup` finds for the name.
pub open spec fn copies_query_parameters<F: Fn(&String) -> Option<String>>(
    query_parameters_config: Seq<String>,
    lookup: F,
    added: Seq<Insertion>,
) -> bool {
    &&& added.len() == query_parameters_config.len()
    &&& forall|i: int|
        0 <= i < query_parameters_config.len() ==> copies_query_parameter(
            query_parameters_config[i],
            lookup,
            #[trigger] added[i],
        )
}

/// The fields that the configured query parameters give to each event of a
/// request: for each name of `query_parameters_config`, in its order, the
/// value that the request has for it, which `lookup` finds.
pub fn add_query_parameters<F: Fn(&String) -> Option<String>>(
    query_parameters_config: &Vec<String>,
    lookup: F,
) -> (added: Vec<Insertion>)
    requires
        forall|i: int|
            0 <= i < query_parameters_config@.len() ==> call_requires(
                lookup,
                (&#[trigger] query_parameters_config@[i],),
            ),
    ensures
        copies_query_parameters(query_parameters_config@, lookup, added@),
{
    let mut added: Vec<Insertion> = Vec::new();
    let mut i: usize = 0;
    while i < query_parameters_config.len()
        invariant
            i <= query_parameters_config@.len(),
            forall|j: int|
                0 <= j < query_parameters_config@.len() ==> call_requires(
                    lookup,
                    (&#[trigger] query_parameters_config@[j],),
                ),
            copies_query_parameters(query_parameters_config@.take(i as int), lookup, added@),
        decreases query_parameters_config@.len() - i,
    {
        let name = &query_parameters_config[i];
        let found = lookup(name);
        let ghost before = added@;
        let value = match &found {
            Some(text) => FieldValue::Text(text.clone()),
            None => FieldValue::Null,
        };
        added.push(Insertion { key: name.clone(), value, overwrite: true });
        proof {
            let config = query_parameters_config@.take(i as int + 1);
            assert(call_ensures(lookup, (name,), found));
            assert(copies_query_parameter(*name, lookup, added@[i as int]));
            assert forall|j: int| 0 <= j < config.len() implies copies_query_parameter(
                config[j],
                lookup,
                #[trigger] added@[j],
            ) by {
                if j < i {
                    assert(query_parameters_config@.take(i as int)[j] == config[j]);
                    assert(added@[j] == before[j]);
                }
            }
        }
        i = i + 1;
    }
    proof {
        assert(query_parameters_config@.take(i as int) =~= query_parameters_config@);
    }
    added
}

/// The source itself: what it copies from a request into its events.
pub struct VectorSource {
    pub encoding: Encoding,
    pub headers: Vec<String>,
    pub query_parameters: Vec<String>,
}

/// What one request gives: what the objects of its body hold, one event for
/// each, and the fields that each event is given, before and after what its
/// object holds, in the order in which they are given.
pub struct Built<O> {
    pub objects: Vec<O>,
    pub first: Vec<Insertion>,
    pub last: Vec<Insertion>,
}

/// The field that stamps an event with the time at which it was made.
pub open spec fn timestamp_field(timestamp_key: Seq<char>) -> InsertionView {
    InsertionView { key: timestamp_key, value: FieldValueView::Now, overwrite: true }
}

impl VectorSource {
    /// Whether `built` is what a request gives whose body holds `objects`.
    ///
    /// Each event is stamped with the time under `timestamp_key` before it is
    /// given what its object holds, so that an object's own field of that
    /// name wins. After that it is given the configured headers, then the
    /// configured query parameters, and last the name `http` under
    /// `source_type_key`, unless it says already where it is from.
    pub open spec fn gives<
        O,
        H: Fn(&String) -> Option<Vec<u8>>,
        Q: Fn(&String) -> Option<String>,
    >(
        self,
        built: Built<O>,
        objects: Seq<O>,
        header: H,
        query: Q,
        timestamp_key: Seq<char>,
        source_type_key: Seq<char>,
    ) -> bool {
        let headers = self.headers@.len() as int;
        let parameters = self.query_parameters@.len() as int;
        &&& built.objects@ == objects
        &&& views(built.first@) == seq![timestamp_field(timestamp_key)]
        &&& built.last@.len() == headers + parameters + 1
        &&& copies_headers(self.headers@, header, built.last@.subrange(0, headers))
        &&& copies_query_parameters(
            self.query_parameters@,
            query,
            built.last@.subrange(headers, headers + parameters),
        )
        &&& built.last@[headers + parameters]@ == text_field(source_type_key, "http"@, false)
    }

    /// What one request gives, given what reading its body as JSON gave.
    ///
    /// A body that is no JSON, or that is neither an array of objects nor an
    /// object, is refused, and nothing is looked up for it. For the others
    /// the result is what `gives` says, with `header` and `query` finding the
    /// values that the request has for the configured names.
    pub fn build_event<O, H: Fn(&String) -> Option<Vec<u8>>, Q: Fn(&String) -> Option<String>>(
        &self,
        parsed_json: Result<JsonValue<O>, String>,
        header: H,
        query: Q,
        timestamp_key: &str,
        source_type_key: &str,
    ) -> (built: Result<Built<O>, ErrorMessage>)
        requires
            parsed_json matches Ok(value) ==> (objects_of(value) is Ok ==> {
                &&& forall|i: int|
                    0 <= i < self.headers@.len() ==> call_requires(
                        header,
                        (&#[trigger] self.headers@[i],),
                    )
                &&& forall|i: int|
                    0 <= i < self.query_parameters@.len() ==> call_requires(
                        query,
                        (&#[trigger] self.query_parameters@[i],),
                    )
            }),
        ensures
            parsed_json matches Err(error) ==> (built matches Err(answer) && is_json_error(
                answer,
                "Error parsing Json: "@ + error@,
            )),
            parsed_json matches Ok(value) ==> match objects_of(value) {
                Err(reason) => built matches Err(answer) && is_json_error(answer, reason),
                Ok(objects) => built matches Ok(given) && self.gives(
                    given,
                    objects,
                    header,
                    query,
                    timestamp_key@,
                    source_type_key@,
                ),
            },
    {
        let objects = match decode_body(parsed_json, self.encoding) {
            Ok(objects) => objects,
            Err(answer) => {
                return Err(answer);
            },
        };
        let mut first: Vec<Insertion> = Vec::new();
        first.push(
            Insertion { key: String::from_str(timestamp_key), value: FieldValue::Now, overwrite: true },
        );
        assert(views(first@) =~= seq![timestamp_field(timestamp_key@)]);
        let mut last = add_headers(&self.headers, header);
        let ghost from_headers = last@;
        let mut from_query = add_query_parameters(&self.query_parameters, query);
        let ghost from_parameters = from_query@;
        last.append(&mut from_query);
        last.push(Insertion::text(source_type_key, "http", false));
        proof {
            let headers = self.headers@.len() as int;
            let parameters = self.query_parameters@.len() as int;
            assert(last@.subrange(0, headers) =~= from_headers);
            assert(last@.subrange(headers, headers + parameters) =~= from_parameters);
        }
        Ok(Built { objects, first, last })
    }
}

} // verus!
