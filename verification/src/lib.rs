//! Verified core of the proactive research subsystem: event queues, rate limiting,
//! task scheduling, circuit breaking and the configuration rules around them.

pub mod background_scheduler;
pub mod clock;
pub mod comprehensive_config;
pub mod config;
pub mod configurable_analyzer;
pub mod context_aware_scorer;
pub mod error_handler;
pub mod file_monitor;
pub mod gap_analyzer;
pub mod impact_assessor;
pub mod integrated_analyzer;
pub mod label_counts;
pub mod manager;
pub mod notification_delivery_verifier;
pub mod notification_system;
pub mod notification_testing_harness;
pub mod patterns;
pub mod prioritization;
pub mod score_cache;
pub mod service_breakers;
pub mod text;
