//! Verified core of the Torca messenger runtime: wire contracts, endpoint
//! parsers, provider lifecycle projections and the in-memory test transport.
pub mod text;
pub mod iroh_profile;
pub mod onion_endpoint;
pub mod contract;
pub mod bridge;
pub mod native_json;
pub mod host_runtime;
pub mod runtime_support;
pub mod iroh_lifecycle;
pub mod iroh_endpoint;
pub mod iroh_router;
pub mod iroh_link;
pub mod memory_transport;
pub mod pairing_slots;
pub mod transition_log;
pub mod iroh_config;
pub mod tor_peer;
pub mod webrtc;
pub mod pairing_service;
pub mod webrtc_host;
pub mod capabilities;
pub mod stored_secret;
pub mod native_ids;
pub mod notifications;
pub mod provider_selection;
pub mod native_engine;
