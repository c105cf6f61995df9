//! The request-processing engine of a hosting-panel control daemon: the
//! request/response envelope and dispatcher, the path sandbox that gates
//! every filesystem method, the shared firewall state's transitions, and
//! each method's validation, command layout and answers — everything the
//! daemon decides, verified; the surrounding process runs the transport
//! and performs the planned effects.

pub mod backup;
pub mod database;
pub mod files;
pub mod firewall;
pub mod json;
pub mod listing;
pub mod protocol;
pub mod records;
pub mod sandbox;
pub mod seqtools;
pub mod services;
pub mod ssl;
pub mod state;
pub mod text;
pub mod vhost;
