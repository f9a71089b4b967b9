//! A regional ingestion gateway's decision logic: configuration, alert
//! generation for device statuses, the uploader's connection and upload
//! state machine, and the registration of mock entities.

pub mod alerts;
pub mod config;
pub mod domain;
pub mod registration;
pub mod startup;
pub mod text;
pub mod ulid_codec;
pub mod uploader;
