//! A client layer over an embedded, ordered key-value engine that is
//! partitioned into column families.
//!
//! The engine itself is native code that this library never touches. Every
//! operation is written as a decision procedure: it hands out the engine
//! call that has to be made next ([`engine::EngineCall`]) and takes the
//! engine's answer ([`engine::EngineReply`]) to decide how to go on. The
//! caller performs the calls. What the library fixes, and proves, is which
//! calls are made, in which order, and what is reported for each answer.
pub mod status;
pub mod slice;
pub mod engine;
pub mod data_config;
pub mod lookup;
pub mod iterator;
pub mod family;
pub mod database;
pub mod laws;
