//! The verified core of an operator that replaces a Kubernetes service by a proxy into a
//! tailnet.
//!
//! A reconcile is a machine ([`reconciler`]) that asks for one [`action`] at a time and is
//! told what came of it. [`transitions`] says what it does next, [`conduct`] proves of each
//! step what it comes to in terms of what was read, and [`runs`] and the modules that build
//! on it ([`provisioning`], [`switching`], [`restoring`], [`success`],
//! [`ending`], [`locality`]) prove what holds of every reconcile from its beginning to its
//! end. A request for an auth key is such a machine too ([`tailscale_api`], [`key_runs`]).
//! The other modules hold the objects of the cluster, as far as the operator reads them,
//! and what it computes from them.

pub mod action;
pub mod conduct;
pub mod deployment;
pub mod ending;
pub mod endpoints;
pub mod error;
pub mod finalizers;
pub mod key_runs;
pub mod locality;
pub mod meta;
pub mod port_map;
pub mod probe;
pub mod provisioning;
pub mod reconciler;
pub mod replaced_service;
pub mod restoring;
pub mod runs;
pub mod service;
pub mod step;
pub mod string_map;
pub mod success;
pub mod switching;
pub mod tailscale_api;
pub mod text;
pub mod transitions;
