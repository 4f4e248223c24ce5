//! The console sink's line format.
//!
//! Printing is the host's; the exact text of the line a console sink
//! prints for one record is built and specified here.

use vstd::prelude::*;
use vstd::string::StringExecFns;

use crate::decimal::{append_i64, int_str};

verus! {

pub open spec fn bool_str(b: bool) -> Seq<char> {
    if b {
        "true"@
    } else {
        "false"@
    }
}

/// The console line for one record, field by field.
pub open spec fn track_line(
    process_id: i64,
    started: i64,
    finished: i64,
    data: Seq<char>,
    success: bool,
    status_code: i32,
) -> Seq<char> {
    "MyTelemetryToConsole: process_id: "@ + int_str(process_id as int) + ", started: "@ + int_str(
        started as int,
    ) + ", finished: "@ + int_str(finished as int) + ", data: "@ + data + ", success: "@
        + bool_str(success) + ", status_code: "@ + int_str(status_code as int)
}

/// A sink that reports each record as one console line; the host prints
/// what `format_track_line` builds.
#[derive(Debug)]
pub struct MyTelemetryToConsole {}

impl MyTelemetryToConsole {
    /// Builds the exact line for one record.
    pub fn format_track_line(
        &self,
        process_id: i64,
        started: i64,
        finished: i64,
        data: &str,
        success: bool,
        status_code: i32,
    ) -> (r: String)
        ensures
            r@ == track_line(process_id, started, finished, data@, success, status_code),
    {
        let mut out = String::new();
        out.append("MyTelemetryToConsole: process_id: ");
        append_i64(process_id, &mut out);
        out.append(", started: ");
        append_i64(started, &mut out);
        out.append(", finished: ");
        append_i64(finished, &mut out);
        out.append(", data: ");
        out.append(data);
        out.append(", success: ");
        if success {
            out.append("true");
        } else {
            out.append("false");
        }
        out.append(", status_code: ");
        append_i64(status_code as i64, &mut out);
        proof {
            assert(out@ =~= track_line(
                process_id,
                started,
                finished,
                data@,
                success,
                status_code,
            ));
        }
        out
    }
}

} // verus!
