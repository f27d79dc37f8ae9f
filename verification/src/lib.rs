//! A verified core for a multi-tenant gateway in front of a remote
//! inventory service: order validation and transformation, a workflow
//! state machine, retry and circuit-breaker policies, caches with
//! TTL and invalidation, metrics, and tenant access control.
pub mod clock;
pub mod ident;
pub mod strutil;
pub mod domain;
pub mod validation;
pub mod models;
pub mod circuit_breaker;
pub mod metrics;
pub mod cache;
pub mod cache_strategy;
pub mod cache_metrics;
pub mod errors;
pub mod tenant_access;
pub mod transformation;
pub mod fields;
pub mod enrichment;
pub mod retry;
pub mod config;
pub mod transport;
pub mod degradation;
pub mod resilient;
pub mod cached_client;
pub mod processors;
pub mod plugin;
pub mod order_service;
pub mod extensible_order_service;
pub mod virtual_models;
pub mod virtual_map;
pub mod virtual_service;
pub mod health;
pub mod workflow;
