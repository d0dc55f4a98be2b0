//! Safe, verified bookkeeping for a native CoAP protocol engine.
//!
//! The native engine hands out opaque, manually managed objects (context,
//! endpoint, session, resource) and mutates their reference counts from its
//! own callbacks. This crate is the ownership and lifecycle model that sits
//! between such an engine and safe code: it decides what is recorded, which
//! credentials are handed across, how timeouts are converted for the engine's
//! I/O call, and in which exact order the object graph must be torn down.
//! The unverified shell around this library performs the actual engine calls
//! and feeds their outcomes back in as plain values.

mod context;
mod crypto;
mod error;
mod resource;
mod session;
mod transport;
mod types;

pub use context::io_timeout_value;
pub use context::lemma_endpoint_destroyed_before_context_free;
pub use context::lemma_session_released_before_context_free;
pub use context::lemma_sub_millisecond_timeout_rounds_up;
pub use context::lemma_token_raw_round_trip;
pub use context::shutdown_remaining;
pub use context::spec_io_timeout;
pub use context::spec_token_from_raw;
pub use context::spec_token_to_raw;
pub use context::CoapContext;
pub use context::CoapTeardownAction;
pub use crypto::opt_bytes_view;
pub use crypto::opt_psk_data_view;
pub use crypto::opt_psk_info_view;
pub use crypto::CoapClientCryptoProvider;
pub use crypto::CoapCryptoPskData;
pub use crypto::CoapCryptoPskDataView;
pub use crypto::CoapCryptoPskInfo;
pub use crypto::CoapCryptoPskInfoView;
pub use crypto::CoapServerCryptoProvider;
pub use crypto::CoapStaticCryptoProvider;
pub use error::ContextCreationError;
pub use error::EndpointCreationError;
pub use error::IoProcessError;
pub use error::SessionCreationError;
pub use resource::CoapResource;
pub use session::CoapClientSession;
pub use session::CoapClientSessionEntry;
pub use session::CoapSessionHandle;
pub use transport::CoapEndpoint;
pub use types::CoapAddress;
pub use types::CoapDuration;
pub use types::CoapProtocol;
pub use types::COAP_BLOCK_SINGLE_BODY;
pub use types::COAP_BLOCK_USE_LIBCOAP;
pub use types::COAP_DTLS_SPSK_SETUP_VERSION;
pub use types::COAP_IO_WAIT;
pub use types::MILLIS_PER_SEC;
pub use types::NANOS_PER_MILLI;
pub use types::NANOS_PER_SEC;
