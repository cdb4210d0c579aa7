//! Core of a multi-tenant classified-ads bulletin bot: the per-chat
//! conversation state machine, the tenant supervisor's registry, and the
//! write-behind persistence worker, together with the compact callback
//! codec that button payloads travel in.

pub mod ad;
pub mod codec;
pub mod config;
pub mod entity;
pub mod flags;
pub mod fsm;
pub mod group;
pub mod kvlist;
pub mod markup;
pub mod parse;
pub mod persistent;
pub mod res;
pub mod supervisor;
pub mod util;
pub mod worker;
