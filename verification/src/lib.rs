//! The logic of the EzerDesk plugin CLI (`ezer`): project templates, example
//! lookup, server addresses, request bodies and the reading of server replies,
//! log stream rendering, and build reports.
use vstd::prelude::*;

pub mod b64;
pub mod compile;
pub mod examples;
pub mod http;
pub mod json;
pub mod logs;
pub mod manifest;
pub mod publish;
pub mod review;
pub mod server;
pub mod size;
pub mod template;
pub mod text;

verus! {

} // verus!
