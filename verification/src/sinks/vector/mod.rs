//! The sink that forwards events to another instance of the pipeline, in
//! either of its two versions.

use crate::config::DataType;
use vstd::prelude::*;

pub mod v1;
pub mod v2;

verus! {

/// A value of a TOML document. Nothing is known of its contents.
#[verifier::external_type_specification]
#[verifier::external_body]
pub struct ExTomlValue(toml::Value);

/// Why a text is no TOML document. Nothing is known of its contents.
#[verifier::external_type_specification]
#[verifier::external_body]
pub struct ExTomlError(toml::de::Error);

/// Whether `toml::from_str` reads `text` as a TOML document.
pub uninterp spec fn toml_parses(text: Seq<char>) -> bool;

/// The configuration that is written out as an example, as TOML text.
pub open spec fn generated_config() -> Seq<char> {
    "version = \"2\"\n            hooks.process = \"\""@
}

/// `toml::from_str` of the toml crate, for a `toml::Value`: the document
/// that `text` holds, or why it holds none. Whether it succeeds depends on the
/// text alone. Only the text of the example configuration is admitted: the
/// reader is not known to return on every text.
#[verifier::external_body]
fn parse_toml(text: &str) -> (value: Result<toml::Value, toml::de::Error>)
    requires
        text@ == generated_config(),
    ensures
        value is Ok <==> toml_parses(text@),
{
    toml::from_str(text)
}

/// The mark of the first version.
#[derive(Clone, Copy, Debug, PartialEq, Eq, Structural)]
pub enum V1 {
    V1,
}

/// The mark of the second version.
#[derive(Clone, Copy, Debug, PartialEq, Eq, Structural)]
pub enum V2 {
    V2,
}

/// A configuration of the first version; the mark may be left out.
pub struct VectorSinkConfigV1 {
    pub version: Option<V1>,
    pub config: v1::VectorSinkConfig,
}

/// A configuration of the sink, in either version.
pub enum VectorSinkConfig {
    V1(VectorSinkConfigV1),
    V2(VectorSinkConfigV2),
}

/// A configuration of the second version, which the mark tells apart.
pub struct VectorSinkConfigV2 {
    pub version: V2,
    pub config: v2::VectorSinkConfig,
}

impl VectorSinkConfig {
    /// The configuration that is written out as an example: the document that
    /// `generated_config()` holds, or the reason why the text is refused.
    pub fn generate_config() -> (value: Result<toml::Value, toml::de::Error>)
        ensures
            value is Ok <==> toml_parses(generated_config()),
    {
        parse_toml("version = \"2\"\n            hooks.process = \"\"")
    }

    /// The kinds of event that the sink takes.
    pub fn input_type(&self) -> (kind: DataType)
        ensures
            kind == DataType::Any,
    {
        match self {
            VectorSinkConfig::V1(v1) => v1.config.input_type(),
            VectorSinkConfig::V2(v2) => v2.config.input_type(),
        }
    }

    /// The name of the sink.
    pub fn sink_type(&self) -> (name: &'static str)
        ensures
            name@ == "vector"@,
    {
        match self {
            VectorSinkConfig::V1(v1) => v1.config.sink_type(),
            VectorSinkConfig::V2(v2) => v2.config.sink_type(),
        }
    }
}

} // verus!
