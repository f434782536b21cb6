//! Barrage stream processing: protobuf wire decoding of live-room push frames,
//! event routing, filtering, de-duplication and the resilience policies around
//! the upstream connection.

pub mod api;
pub mod browser;
pub mod cdp;
pub mod collector_spawn;
pub mod config;
pub mod decoder;
pub mod dedup;
pub mod dispatcher;
pub mod dynamic_room;
pub mod encoding;
pub mod error;
pub mod event;
pub mod fetch_consumer;
pub mod filter;
pub mod grpc_signed;
pub mod im_fetch;
pub mod material;
pub mod message_method;
pub mod metrics;
pub mod pipeline;
pub mod pool;
pub mod proto;
pub mod resilience;
pub mod session;
pub mod signature_error;
pub mod signer;
pub mod text;
pub mod url_parser;
pub mod watchdog;
pub mod wire;
pub mod ws_path;
pub mod wss;
