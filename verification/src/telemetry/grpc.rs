//! The gRPC transport: an extension point. Nothing is sent over a network.

use crate::telemetry::TelemetryResult;
use crate::telemetry::TelemetrySink;
use vstd::prelude::*;
use vstd::string::StringExecFns;

verus! {

/// A sink for a gRPC service. It accepts every call and sends nothing.
pub struct GrpcSink {
    pub endpoint: String,
}

impl GrpcSink {
    /// A sink for the service at `endpoint`.
    pub fn new(endpoint: &str) -> (r: Self)
        ensures
            r.endpoint@ == endpoint@,
    {
        GrpcSink { endpoint: String::from_str(endpoint) }
    }

    /// The line that describes a send to `topic`: the topic and the endpoint.
    pub open spec fn trace_text(&self, topic: Seq<char>) -> Seq<char> {
        "gRPC: would send to "@ + topic + " @ "@ + self.endpoint@
    }

    /// Composes the line that describes a send to `topic`, for a debug log.
    pub fn trace(&self, topic: &str) -> (line: String)
        ensures
            line@ == self.trace_text(topic@),
    {
        String::from_str("gRPC: would send to ").concat(topic).concat(" @ ").concat(
            self.endpoint.as_str(),
        )
    }
}

impl TelemetrySink for GrpcSink {
    open spec fn outcome(&self, topic: Seq<char>, payload: Seq<u8>, r: TelemetryResult<()>) -> bool {
        r is Ok
    }

    /// Accepts the call. Always succeeds.
    fn send(&self, topic: &str, payload: &[u8]) -> (r: TelemetryResult<()>)
        ensures
            r is Ok,
    {
        Ok(())
    }
}

} // verus!
