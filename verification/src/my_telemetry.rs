//! The pluggable sink interface.
//!
//! A host may route tracked operations to a sink of its own by
//! implementing this trait; the library states nothing about what an
//! implementation does with a record.

use vstd::prelude::*;

verus! {

/// A consumer of one tracked operation's record.
pub trait MyTelemetry {
    fn track(
        &self,
        process_id: i64,
        started: i64,
        finished: i64,
        data: String,
        success: bool,
        status_code: i32,
    );
}

} // verus!
