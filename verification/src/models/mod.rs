//! Records kept about agents and their tasks.

pub mod agent;
