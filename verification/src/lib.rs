//! Core runtime support for contract logic: managed byte buffers and
//! arbitrary-precision unsigned integers held in a per-call arena, a
//! self-describing binary codec with top-level and nested shapes, a
//! call-value resolver with strict payability checks, and one-shot
//! deploy/upgrade builders that resolve their gas budget at dispatch time.

pub mod abort;
pub mod address;
pub mod big_uint;
pub mod bytes;
pub mod call_value;
pub mod codec;
pub mod contract_deploy;
pub mod debug_api;
pub mod managed_buffer;
pub mod token_identifier;
