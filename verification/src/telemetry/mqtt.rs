//! The MQTT transport: an extension point. Nothing is sent over a network.

use crate::telemetry::TelemetryResult;
use crate::telemetry::TelemetrySink;
use vstd::prelude::*;
use vstd::string::StringExecFns;

verus! {

/// A sink for an MQTT broker. It accepts every call and publishes nothing.
pub struct MqttSink {
    pub broker_url: String,
}

impl MqttSink {
    /// A sink for the broker at `broker_url`.
    pub fn new(broker_url: &str) -> (r: Self)
        ensures
            r.broker_url@ == broker_url@,
    {
        MqttSink { broker_url: String::from_str(broker_url) }
    }

    /// The line that describes a send to `topic`: the topic and the broker.
    pub open spec fn trace_text(&self, topic: Seq<char>) -> Seq<char> {
        "MQTT: would publish to "@ + topic + " @ "@ + self.broker_url@
    }

    /// Composes the line that describes a send to `topic`, for a debug log.
    pub fn trace(&self, topic: &str) -> (line: String)
        ensures
            line@ == self.trace_text(topic@),
    {
        String::from_str("MQTT: would publish to ").concat(topic).concat(" @ ").concat(
            self.broker_url.as_str(),
        )
    }
}

impl TelemetrySink for MqttSink {
    open spec fn outcome(&self, topic: Seq<char>, payload: Seq<u8>, r: TelemetryResult<()>) -> bool {
        r is Ok
    }

    /// Accepts the call. Always succeeds.
    fn send(&self, topic: &str, payload: &[u8]) -> (r: TelemetryResult<()>)
        ensures
            r is Ok,
    {
        Ok(())
    }
}

} // verus!
