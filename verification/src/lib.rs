//! Management control plane for Pertisk clusters: the rules, parsers, planners
//! and renderers behind the API, as verified functions on plain values.

pub mod addons;
pub mod auth;
pub mod cloud_images;
pub mod cluster_availability;
pub mod cluster_resources;
pub mod cluster_versions;
pub mod config;
pub mod crypto;
pub mod error;
pub mod events;
pub mod ip;
pub mod jobs;
pub mod json;
pub mod k8s;
pub mod kubeconfig;
pub mod mail;
pub mod node_attestation;
pub mod node_availability;
pub mod node_status;
pub mod node_sync;
pub mod num;
pub mod order;
pub mod rediscover;
pub mod text;
pub mod throttle;
pub mod time;
pub mod token;
pub mod yaml;
