//! The sink that sends events over HTTP.

use super::util::{
    BatchConfig, Compression, EncodingConfig, TowerRequestConfig, UriSerde,
};
use crate::tls::settings::TlsOptions;
use vstd::prelude::*;

verus! {

/// The method of a request.
#[derive(Clone, Copy, Debug, PartialEq, Eq, Structural)]
pub enum HttpMethod {
    Get,
    Head,
    Post,
    Put,
    Patch,
    Delete,
}

/// The codecs of the HTTP sink.
#[derive(Clone, Copy, Debug, PartialEq, Eq, Structural)]
pub enum Encoding {
    Text,
    Ndjson,
    Json,
}

/// How a request says who sends it.
pub enum Auth {
    Basic { user: String, password: String },
    Bearer { token: String },
}

/// The limits on the requests of an HTTP sink and the headers that each
/// request carries, in their order.
pub struct RequestConfig {
    pub tower: TowerRequestConfig,
    pub headers: Vec<(String, String)>,
}

/// The configuration of an HTTP sink.
pub struct HttpSinkConfig {
    pub uri: UriSerde,
    pub method: Option<HttpMethod>,
    pub auth: Option<Auth>,
    pub headers: Option<Vec<(String, String)>>,
    pub compression: Compression,
    pub encoding: EncodingConfig<Encoding>,
    pub batch: BatchConfig,
    pub request: RequestConfig,
    pub tls: Option<TlsOptions>,
}

} // verus!
