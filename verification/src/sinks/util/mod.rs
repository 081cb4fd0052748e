//! What sinks share: batching, request limits, compression, encoding and the
//! address of the destination.

use vstd::prelude::*;
use vstd::std_specs::convert::FromSpec;
use vstd::string::StringExecFns;

verus! {

/// The limits of one batch of events.
#[derive(Clone, Copy, Debug, PartialEq, Eq, Structural)]
pub struct BatchConfig {
    pub max_bytes: Option<usize>,
    pub max_events: Option<usize>,
    /// The older name of a size limit, for a sink to read as bytes or as events.
    pub max_size: Option<usize>,
    pub timeout_secs: Option<u64>,
}

/// Why the limits of a batch are refused.
#[derive(Clone, Copy, Debug, PartialEq, Eq, Structural)]
pub enum BatchError {
    /// Both `max_bytes` and `max_size` are set.
    BytesAndSize,
}

impl Default for BatchConfig {
    fn default() -> (config: Self)
        ensures
            config == (BatchConfig {
                max_bytes: None,
                max_events: None,
                max_size: None,
                timeout_secs: None,
            }),
    {
        BatchConfig { max_bytes: None, max_events: None, max_size: None, timeout_secs: None }
    }
}

impl BatchConfig {
    /// The limits with `max_size` read as a limit in bytes.
    pub open spec fn spec_use_size_as_bytes(self) -> Result<Self, BatchError> {
        if self.max_bytes is Some && self.max_size is Some {
            Err(BatchError::BytesAndSize)
        } else {
            Ok(
                BatchConfig {
                    max_bytes: if self.max_bytes is Some {
                        self.max_bytes
                    } else {
                        self.max_size
                    },
                    max_size: None,
                    ..self
                },
            )
        }
    }

    /// Reads `max_size` as a limit in bytes: it moves to `max_bytes`, unless
    /// that is set too, which is refused.
    pub fn use_size_as_bytes(&self) -> (limits: Result<Self, BatchError>)
        ensures
            limits == self.spec_use_size_as_bytes(),
    {
        let max_bytes = match (self.max_bytes, self.max_size) {
            (Some(_), Some(_)) => {
                return Err(BatchError::BytesAndSize);
            },
            (Some(bytes), None) => Some(bytes),
            (None, Some(size)) => Some(size),
            (None, None) => None,
        };
        Ok(
            BatchConfig {
                max_bytes,
                max_events: self.max_events,
                max_size: None,
                timeout_secs: self.timeout_secs,
            },
        )
    }
}

/// How the body of a request is compressed.
#[derive(Clone, Copy, Debug, PartialEq, Eq, Structural)]
pub enum Compression {
    /// The body is sent as it is.
    Disabled,
    /// Gzip, with its level if one is set.
    Gzip(Option<usize>),
}

impl Default for Compression {
    fn default() -> (compression: Self)
        ensures
            compression == Compression::Disabled,
    {
        Compression::Disabled
    }
}

/// How many requests may be in flight at once.
#[derive(Clone, Copy, Debug, PartialEq, Eq, Structural)]
pub enum Concurrency {
    /// Not set.
    Unset,
    /// Found by watching the destination.
    Adaptive,
    /// At most this many.
    Fixed(usize),
}

impl Default for Concurrency {
    fn default() -> (concurrency: Self)
        ensures
            concurrency == Concurrency::Unset,
    {
        Concurrency::Unset
    }
}

impl Concurrency {
    /// `self`, or `other` where `self` is not set.
    pub open spec fn spec_if_none(self, other: Self) -> Self {
        if self is Unset {
            other
        } else {
            self
        }
    }

    /// `self`, or `other` where `self` is not set.
    pub fn if_none(self, other: Self) -> (chosen: Self)
        ensures
            chosen == self.spec_if_none(other),
    {
        match self {
            Concurrency::Unset => other,
            _ => self,
        }
    }
}

/// The limits on the requests of a sink.
#[derive(Clone, Copy, Debug, PartialEq, Eq, Structural)]
pub struct TowerRequestConfig {
    pub concurrency: Concurrency,
    pub timeout_secs: Option<u64>,
    pub rate_limit_duration_secs: Option<u64>,
    pub rate_limit_num: Option<u64>,
    pub retry_attempts: Option<usize>,
    pub retry_max_duration_secs: Option<u64>,
    pub retry_initial_backoff_secs: Option<u64>,
}

impl Default for TowerRequestConfig {
    fn default() -> (config: Self)
        ensures
            config == (TowerRequestConfig {
                concurrency: Concurrency::Unset,
                timeout_secs: None,
                rate_limit_duration_secs: None,
                rate_limit_num: None,
                retry_attempts: None,
                retry_max_duration_secs: None,
                retry_initial_backoff_secs: None,
            }),
    {
        TowerRequestConfig {
            concurrency: Concurrency::Unset,
            timeout_secs: None,
            rate_limit_duration_secs: None,
            rate_limit_num: None,
            retry_attempts: None,
            retry_max_duration_secs: None,
            retry_initial_backoff_secs: None,
        }
    }
}

/// How a timestamp is written.
#[derive(Clone, Copy, Debug, PartialEq, Eq, Structural)]
pub enum TimestampFormat {
    Unix,
    Rfc3339,
}

/// How events are written for a destination: the codec `E`, and how
/// timestamps are written.
#[derive(Clone, Copy, Debug, PartialEq, Eq, Structural)]
pub struct EncodingConfig<E> {
    pub codec: E,
    pub timestamp_format: Option<TimestampFormat>,
}

impl<E> EncodingConfig<E> {
    /// The encoding with codec `codec` and nothing else set.
    pub fn from_codec(codec: E) -> (encoding: Self)
        ensures
            encoding == (EncodingConfig { codec, timestamp_format: None }),
    {
        EncodingConfig { codec, timestamp_format: None }
    }

    /// The same encoding for the codec `X` that `E` converts to.
    pub fn into_encoding<X: From<E>>(self) -> (encoding: EncodingConfig<X>)
        ensures
            encoding.timestamp_format == self.timestamp_format,
            X::obeys_from_spec() ==> encoding.codec == X::from_spec(self.codec),
    {
        EncodingConfig { codec: X::from(self.codec), timestamp_format: self.timestamp_format }
    }
}

/// The address of a destination, as the text of a URI.
pub struct UriSerde {
    pub uri: String,
}

impl Clone for UriSerde {
    fn clone(&self) -> (copy: Self)
        ensures
            copy == *self,
    {
        UriSerde { uri: self.uri.clone() }
    }
}

impl UriSerde {
    /// The address with the text `text`.
    pub fn new(text: &str) -> (address: Self)
        ensures
            address.uri@ == text@,
    {
        UriSerde { uri: String::from_str(text) }
    }
}

} // verus!
