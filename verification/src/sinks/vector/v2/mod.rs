//! The second version of the sink: events as HTTP requests.

use crate::config::DataType;
use crate::sinks::http::{HttpMethod, HttpSinkConfig, RequestConfig};
use crate::sinks::util::{
    BatchConfig, BatchError, Compression, Concurrency, EncodingConfig, TowerRequestConfig, UriSerde,
};
use crate::tls::settings::TlsOptions;
use vstd::prelude::*;
use vstd::std_specs::convert::FromSpecImpl;

verus! {

/// The most bytes that one batch may hold.
pub const MAX_PAYLOAD_SIZE: usize = 1_000_000;

/// The address that the sink sends to where none is configured.
pub open spec fn default_address() -> Seq<char> {
    "http://localhost:5000"@
}

/// Why a configuration is refused.
#[derive(Clone, Copy, Debug, PartialEq, Eq, Structural)]
pub enum BuildError {
    /// The address names no host.
    MissingHost,
    /// The address names no port.
    MissingPort,
    /// The batch may hold more bytes than the sink sends at once.
    BatchMaxSize,
}

/// Why no HTTP sink can be made from a configuration.
#[derive(Clone, Copy, Debug, PartialEq, Eq, Structural)]
pub enum CreateConfigError {
    /// The limits of the batch contradict each other.
    Batch(BatchError),
    /// The configuration asks for what the sink cannot do.
    Build(BuildError),
}

/// The configuration of the second version of the sink.
pub struct VectorSinkConfig {
    pub address: Option<UriSerde>,
    pub compression: Compression,
    pub encoding: EncodingConfig<Encoding>,
    pub batch: BatchConfig,
    pub request: TowerRequestConfig,
    pub tls: Option<TlsOptions>,
}

/// The codecs of the sink.
#[derive(Clone, Copy, Debug, PartialEq, Eq, Structural)]
pub enum Encoding {
    Json,
}

impl From<Encoding> for crate::sinks::http::Encoding {
    fn from(v: Encoding) -> (encoding: crate::sinks::http::Encoding) {
        match v {
            Encoding::Json => crate::sinks::http::Encoding::Json,
        }
    }
}

impl FromSpecImpl<Encoding> for crate::sinks::http::Encoding {
    open spec fn obeys_from_spec() -> bool {
        true
    }

    open spec fn from_spec(v: Encoding) -> crate::sinks::http::Encoding {
        match v {
            Encoding::Json => crate::sinks::http::Encoding::Json,
        }
    }
}

impl VectorSinkConfig {
    /// The limits of the batch that the HTTP sink gets: the size read as
    /// bytes, at most `MAX_PAYLOAD_SIZE` of them and that many where none is
    /// set, and no limit on the number of events.
    pub open spec fn spec_batch(self) -> Result<BatchConfig, CreateConfigError> {
        match self.batch.spec_use_size_as_bytes() {
            Err(error) => Err(CreateConfigError::Batch(error)),
            Ok(batch) => {
                let max_bytes = match batch.max_bytes {
                    Some(bytes) => bytes,
                    None => MAX_PAYLOAD_SIZE,
                };
                if max_bytes > MAX_PAYLOAD_SIZE {
                    Err(CreateConfigError::Build(BuildError::BatchMaxSize))
                } else {
                    Ok(BatchConfig { max_bytes: Some(max_bytes), max_events: None, ..batch })
                }
            },
        }
    }

    /// The limits on requests that the HTTP sink gets: 75 requests in flight
    /// and 75 requests in each window, where the configuration sets neither.
    pub open spec fn spec_tower(self) -> TowerRequestConfig {
        TowerRequestConfig {
            concurrency: self.request.concurrency.spec_if_none(Concurrency::Fixed(75)),
            rate_limit_num: Some(
                match self.request.rate_limit_num {
                    Some(num) => num,
                    None => 75,
                },
            ),
            ..self.request
        }
    }

    /// The kinds of event that the sink takes: all of them.
    pub fn input_type(&self) -> (kind: DataType)
        ensures
            kind == DataType::Any,
    {
        DataType::Any
    }

    /// The name of the sink.
    pub fn sink_type(&self) -> (name: &'static str)
        ensures
            name@ == "vector"@,
    {
        "vector"
    }

    /// The configuration that is written out as an example: the JSON codec
    /// and nothing else set.
    pub fn generate_config() -> (config: Self)
        ensures
            config == Self::spec_with_encoding(Encoding::Json),
    {
        Self::with_encoding(Encoding::Json)
    }

    /// The configuration with the codec `encoding` and nothing else set.
    pub open spec fn spec_with_encoding(encoding: Encoding) -> Self {
        VectorSinkConfig {
            address: None,
            compression: Compression::Disabled,
            encoding: EncodingConfig { codec: encoding, timestamp_format: None },
            batch: BatchConfig {
                max_bytes: None,
                max_events: None,
                max_size: None,
                timeout_secs: None,
            },
            request: TowerRequestConfig {
                concurrency: Concurrency::Unset,
                timeout_secs: None,
                rate_limit_duration_secs: None,
                rate_limit_num: None,
                retry_attempts: None,
                retry_max_duration_secs: None,
                retry_initial_backoff_secs: None,
            },
            tls: None,
        }
    }

    /// The configuration with the codec `encoding` and nothing else set.
    pub fn with_encoding(encoding: Encoding) -> (config: Self)
        ensures
            config == Self::spec_with_encoding(encoding),
    {
        Self {
            address: None,
            compression: Compression::default(),
            encoding: EncodingConfig::from_codec(encoding),
            batch: BatchConfig::default(),
            request: TowerRequestConfig::default(),
            tls: None,
        }
    }

    /// The configuration of the HTTP sink that does the sending.
    ///
    /// It posts to the configured address, or to `default_address()` where
    /// none is configured, without authentication and without headers of its
    /// own, and keeps the compression, the encoding and the security options.
    /// Limits of the batch that contradict each other are refused, and so is a
    /// batch of more than `MAX_PAYLOAD_SIZE` bytes.
    pub fn create_config(&self) -> (made: Result<HttpSinkConfig, CreateConfigError>)
        ensures
            self.spec_batch() matches Err(error) ==> made == Err::<
                HttpSinkConfig,
                CreateConfigError,
            >(error),
            self.spec_batch() matches Ok(batch) ==> {
                &&& made matches Ok(http)
                &&& http.uri.uri@ == (match self.address {
                    Some(address) => address.uri@,
                    None => default_address(),
                })
                &&& http.method == Some(HttpMethod::Post)
                &&& http.auth is None
                &&& http.headers is None
                &&& http.compression == self.compression
                &&& http.encoding == (EncodingConfig {
                    codec: crate::sinks::http::Encoding::Json,
                    timestamp_format: self.encoding.timestamp_format,
                })
                &&& http.batch == batch
                &&& http.request.tower == self.spec_tower()
                &&& http.request.headers@.len() == 0
                &&& http.tls == self.tls
            },
    {
        let uri = match &self.address {
            Some(address) => address.clone(),
            None => UriSerde::new("http://localhost:5000"),
        };
        let batch = match self.batch.use_size_as_bytes() {
            Ok(batch) => batch,
            Err(error) => {
                return Err(CreateConfigError::Batch(error));
            },
        };

        let max_payload_size: usize = batch.max_bytes.unwrap_or(MAX_PAYLOAD_SIZE);
        if max_payload_size > MAX_PAYLOAD_SIZE {
            return Err(CreateConfigError::Build(BuildError::BatchMaxSize));
        }
        let batch = BatchConfig {
            max_bytes: Some(batch.max_bytes.unwrap_or(MAX_PAYLOAD_SIZE)),
            max_events: None,
            max_size: batch.max_size,
            timeout_secs: batch.timeout_secs,
        };
        let tls = match &self.tls {
            Some(options) => Some(options.clone()),
            None => None,
        };
        let tower = TowerRequestConfig {
            concurrency: self.request.concurrency.if_none(Concurrency::Fixed(75)),
            timeout_secs: self.request.timeout_secs,
            rate_limit_duration_secs: self.request.rate_limit_duration_secs,
            rate_limit_num: Some(self.request.rate_limit_num.unwrap_or(75)),
            retry_attempts: self.request.retry_attempts,
            retry_max_duration_secs: self.request.retry_max_duration_secs,
            retry_initial_backoff_secs: self.request.retry_initial_backoff_secs,
        };
        let request = RequestConfig { tower, headers: Vec::new() };

        Ok(
            HttpSinkConfig {
                uri,
                method: Some(HttpMethod::Post),
                auth: None,
                headers: None,
                compression: self.compression,
                encoding: self.encoding.into_encoding(),
                batch,
                request,
                tls,
            },
        )
    }
}

} // verus!
