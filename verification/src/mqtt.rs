//! What the bridge publishes: for each kind of message its topic, its payload and
//! how it is to be delivered. Sending is left to the caller.

use crate::sensor_id::SensorId;
use vstd::prelude::*;

verus! {

/// Delivery guarantee asked of the broker.
#[derive(Clone, Copy, Debug, PartialEq, Eq, Structural)]
pub enum QoS {
    AtMostOnce,
    AtLeastOnce,
    ExactlyOnce,
}

/// One message, ready to be handed to a broker client.
#[derive(Clone, Debug, PartialEq, Eq)]
pub struct Message {
    pub topic: String,
    pub qos: QoS,
    /// Whether the broker keeps the message for subscribers that come later.
    pub retain: bool,
    pub payload: String,
}

/// A message as plain values.
pub struct MessageView {
    pub topic: Seq<char>,
    pub qos: QoS,
    pub retain: bool,
    pub payload: Seq<char>,
}

impl View for Message {
    type V = MessageView;

    open spec fn view(&self) -> MessageView {
        MessageView { topic: self.topic@, qos: self.qos, retain: self.retain, payload: self.payload@ }
    }
}

/// The digit that stands for `n` in lower-case hexadecimal (`n` below 16).
pub open spec fn lower_hex_digit(n: int) -> char {
    seq!['0', '1', '2', '3', '4', '5', '6', '7', '8', '9', 'a', 'b', 'c', 'd', 'e', 'f'][n]
}

/// Bytes as lower-case hexadecimal: two digits for each byte, high nibble first.
pub open spec fn lower_hex(bytes: Seq<u8>) -> Seq<char> {
    Seq::new(
        2 * bytes.len(),
        |i: int|
            if i % 2 == 0 {
                lower_hex_digit(bytes[i / 2] as int / 16)
            } else {
                lower_hex_digit(bytes[i / 2] as int % 16)
            },
    )
}

/// `hex::encode`: the bytes in lower-case hexadecimal, two digits for each byte in
/// the order of the bytes, the high nibble first. Believed, not proved.
#[verifier::external_body]
fn hex_encode(raw: &[u8]) -> (text: String)
    ensures
        text@ == lower_hex(raw@),
{
    hex::encode(raw)
}

/// Topic of the raw payloads of a sensor: `ruuvi/<id>/raw`.
pub open spec fn raw_topic(id: SensorId) -> Seq<char> {
    "ruuvi/"@ + id.text() + "/raw"@
}

/// Topic of the decoded readings of a sensor: `ruuvi/<id>/raw5`.
pub open spec fn decoded_topic(id: SensorId) -> Seq<char> {
    "ruuvi/"@ + id.text() + "/raw5"@
}

/// The record that carries a reading: `{"temp":<t>,"hum":<h>,"pres":<p>}`.
pub open spec fn decoded_payload(temp: Seq<char>, hum: Seq<char>, pres: Seq<char>) -> Seq<char> {
    "{\"temp\":"@ + temp + ",\"hum\":"@ + hum + ",\"pres\":"@ + pres + "}"@
}

/// The topic under which the raw payloads of `id` are published.
pub fn raw_topic_of(id: &SensorId) -> (topic: String)
    ensures
        topic@ == raw_topic(*id),
{
    let mut topic = String::from_str("ruuvi/");
    topic.append(id.to_text().as_str());
    topic.append("/raw");
    topic
}

/// The topic under which the decoded readings of `id` are published.
pub fn decoded_topic_of(id: &SensorId) -> (topic: String)
    ensures
        topic@ == decoded_topic(*id),
{
    let mut topic = String::from_str("ruuvi/");
    topic.append(id.to_text().as_str());
    topic.append("/raw5");
    topic
}

/// The message that publishes a raw payload: hex-encoded, not retained.
pub fn raw_message(id: &SensorId, raw: &[u8]) -> (message: Message)
    ensures
        message@ == (MessageView {
            topic: raw_topic(*id),
            qos: QoS::AtLeastOnce,
            retain: false,
            payload: lower_hex(raw@),
        }),
{
    Message {
        topic: raw_topic_of(id),
        qos: QoS::AtLeastOnce,
        retain: false,
        payload: hex_encode(raw),
    }
}

/// The message that publishes a decoded reading, not retained.
///
/// `temp`, `hum` and `pres` are the three quantities as the caller has written them
/// out in decimal; they are put into the record as they are. The battery voltage is
/// not part of the record.
pub fn decoded_message(id: &SensorId, temp: &str, hum: &str, pres: &str) -> (message: Message)
    ensures
        message@ == (MessageView {
            topic: decoded_topic(*id),
            qos: QoS::AtLeastOnce,
            retain: false,
            payload: decoded_payload(temp@, hum@, pres@),
        }),
{
    let mut payload = String::from_str("{\"temp\":");
    payload.append(temp);
    payload.append(",\"hum\":");
    payload.append(hum);
    payload.append(",\"pres\":");
    payload.append(pres);
    payload.append("}");
    Message { topic: decoded_topic_of(id), qos: QoS::AtLeastOnce, retain: false, payload }
}

} // verus!
