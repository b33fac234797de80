//! Errors of publishing to the MQTT broker.
use vstd::prelude::*;
use rust_mqtt::packet::v5::reason_codes::ReasonCode;

verus! {

#[verifier::external_type_specification]
#[verifier::external_body]
pub struct ExReasonCode(ReasonCode);

/// A publication failed; the broker or client gave this reason.
#[derive(Debug)]
pub enum MqttError {
    SendError(ReasonCode),
}

} // verus!
