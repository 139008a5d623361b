//! Blue/green supervisor: the decisions behind zero-downtime redeployment of a
//! server application across two runtime slots, with their contracts.

pub mod api;
pub mod cli;
pub mod coordinator;
pub mod health;
pub mod laws;
pub mod proxy;
pub mod slot;
pub mod startup;
pub mod steps;
pub mod update;
