//! Where the bridge meets the MQTT client library: the options with which a
//! session is opened.

use vstd::prelude::*;
use crate::mqtt::ConnectRequest;

verus! {

/// Makes `rumqttc::MqttOptions` known as a type of which nothing is seen.
#[verifier::external_type_specification]
#[verifier::external_body]
pub struct ExMqttOptions(rumqttc::MqttOptions);

/// The options that `rumqttc` makes for a client identifier, a broker
/// address and a port, with every other setting at its default.
pub uninterp spec fn options_for(
    client_identifier: Seq<char>,
    server: Seq<char>,
    port: u16,
) -> rumqttc::MqttOptions;

/// Calls `rumqttc::MqttOptions::new`. The call stores the three arguments
/// and fills every other setting with a fixed default, so that its result
/// depends on the arguments alone; the contract gives that result its name
/// and claims no more.
#[verifier::external_body]
fn new_options(client_identifier: &str, server: &str, port: u16) -> (options: rumqttc::MqttOptions)
    ensures
        options == options_for(client_identifier@, server@, port),
{
    rumqttc::MqttOptions::new(client_identifier, server, port)
}

/// The options with which to open the session that `request` asks for.
pub fn session_options(request: &ConnectRequest) -> (options: rumqttc::MqttOptions)
    ensures
        options == options_for(request@.client_identifier, request@.server, request@.port),
{
    new_options(request.client_identifier.as_str(), request.server.as_str(), request.port)
}

} // verus!
