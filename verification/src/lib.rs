//! Deployment orchestrator for declaratively-defined challenge workloads.
//!
//! A challenge is deployed onto a cluster in strictly ordered phases:
//! its namespace first, then per pod a deployment, then the pod's network
//! exposure, split into raw TCP passthrough and HTTP ingress under a routed
//! domain. Every applied object is waited on before the next phase starts,
//! with pod-scoped waits bounded by a fixed timeout. The per-challenge
//! pipeline is modelled as a state machine whose decisions are verified
//! here; the surrounding process performs the cluster calls and feeds the
//! outcomes back as events.

pub mod config;
pub mod render;
pub mod pipeline;
pub mod fleet;
