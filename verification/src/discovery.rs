//! Discovery announcements: the retained configuration messages that describe a
//! sensor's measurements to a home-automation consumer.

use crate::json::{
    json_array, json_doc, json_map_insert, json_map_new, json_object, json_string, json_text,
    json_to_string, JsonDoc,
};
use crate::mqtt::{decoded_topic, decoded_topic_of, Message, MessageView, QoS};
use crate::sensor_id::SensorId;
use vstd::prelude::*;

verus! {

/// A measurement that is announced on its own.
#[derive(Clone, Copy, Debug, PartialEq, Eq, Structural)]
pub enum Metric {
    Temperature,
    Humidity,
    Pressure,
}

impl Metric {
    /// The name of the metric inside topics and unique ids.
    pub open spec fn object_id(self) -> Seq<char> {
        match self {
            Metric::Temperature => "temperature"@,
            Metric::Humidity => "humidity"@,
            Metric::Pressure => "pressure"@,
        }
    }

    /// The name shown to people.
    pub open spec fn label(self) -> Seq<char> {
        match self {
            Metric::Temperature => "Temperature"@,
            Metric::Humidity => "Humidity"@,
            Metric::Pressure => "Pressure"@,
        }
    }

    /// The unit of measurement.
    pub open spec fn unit(self) -> Seq<char> {
        match self {
            Metric::Temperature => "°C"@,
            Metric::Humidity => "%"@,
            Metric::Pressure => "hPa"@,
        }
    }

    /// The template by which a consumer takes the value out of a decoded record.
    pub open spec fn value_template(self) -> Seq<char> {
        match self {
            Metric::Temperature => "{{ value_json.temp }}"@,
            Metric::Humidity => "{{ value_json.hum }}"@,
            Metric::Pressure => "{{ value_json.pres }}"@,
        }
    }

    fn object_id_str(self) -> (s: &'static str)
        ensures
            s@ == self.object_id(),
    {
        match self {
            Metric::Temperature => "temperature",
            Metric::Humidity => "humidity",
            Metric::Pressure => "pressure",
        }
    }

    fn label_str(self) -> (s: &'static str)
        ensures
            s@ == self.label(),
    {
        match self {
            Metric::Temperature => "Temperature",
            Metric::Humidity => "Humidity",
            Metric::Pressure => "Pressure",
        }
    }

    fn unit_str(self) -> (s: &'static str)
        ensures
            s@ == self.unit(),
    {
        match self {
            Metric::Temperature => "°C",
            Metric::Humidity => "%",
            Metric::Pressure => "hPa",
        }
    }

    fn value_template_str(self) -> (s: &'static str)
        ensures
            s@ == self.value_template(),
    {
        match self {
            Metric::Temperature => "{{ value_json.temp }}",
            Metric::Humidity => "{{ value_json.hum }}",
            Metric::Pressure => "{{ value_json.pres }}",
        }
    }
}

/// The identifier under which a consumer files the device: `ruuvi_<id>`, the id
/// written with underscores.
pub open spec fn device_id(id: SensorId) -> Seq<char> {
    "ruuvi_"@ + id.slug()
}

/// The name under which a consumer shows the device: `Ruuvi <id>`.
pub open spec fn device_name(id: SensorId) -> Seq<char> {
    "Ruuvi "@ + id.text()
}

/// The identifier of one metric of one device: `ruuvi_<id>_<metric>`.
pub open spec fn unique_id(id: SensorId, metric: Metric) -> Seq<char> {
    device_id(id) + "_"@ + metric.object_id()
}

/// Topic of the announcement of one metric:
/// `homeassistant/sensor/ruuvi_<id>/<metric>/config`.
pub open spec fn discovery_topic(id: SensorId, metric: Metric) -> Seq<char> {
    "homeassistant/sensor/"@ + device_id(id) + "/"@ + metric.object_id() + "/config"@
}

/// The description of the device that every announcement of a sensor shares.
pub open spec fn device_doc(id: SensorId) -> JsonDoc {
    JsonDoc::Object(
        Map::<Seq<char>, JsonDoc>::empty().insert(
            "identifiers"@,
            JsonDoc::List(seq![JsonDoc::Text(device_id(id))]),
        ).insert("name"@, JsonDoc::Text(device_name(id))).insert(
            "manufacturer"@,
            JsonDoc::Text("Ruuvi"@),
        ).insert("model"@, JsonDoc::Text("RuuviTag"@)),
    )
}

/// The document that announces one metric of a sensor.
pub open spec fn discovery_doc(id: SensorId, metric: Metric) -> JsonDoc {
    JsonDoc::Object(
        Map::<Seq<char>, JsonDoc>::empty().insert("name"@, JsonDoc::Text(metric.label())).insert(
            "state_topic"@,
            JsonDoc::Text(decoded_topic(id)),
        ).insert("unit_of_measurement"@, JsonDoc::Text(metric.unit())).insert(
            "value_template"@,
            JsonDoc::Text(metric.value_template()),
        ).insert("unique_id"@, JsonDoc::Text(unique_id(id, metric))).insert(
            "device"@,
            device_doc(id),
        ),
    )
}

/// The announcement of one metric of a sensor, as it is published.
pub open spec fn discovery_message(id: SensorId, metric: Metric) -> MessageView {
    MessageView {
        topic: discovery_topic(id, metric),
        qos: QoS::AtLeastOnce,
        retain: true,
        payload: json_text(discovery_doc(id, metric)),
    }
}

/// The announcements of a sensor, in the order in which they are published.
pub open spec fn discovery_messages(id: SensorId) -> Seq<MessageView> {
    seq![
        discovery_message(id, Metric::Temperature),
        discovery_message(id, Metric::Humidity),
        discovery_message(id, Metric::Pressure),
    ]
}

fn device_id_of(id: &SensorId) -> (text: String)
    ensures
        text@ == device_id(*id),
{
    let mut text = String::from_str("ruuvi_");
    text.append(id.to_slug().as_str());
    text
}

fn device_value(id: &SensorId) -> (value: serde_json::Value)
    ensures
        json_doc(value) == device_doc(*id),
{
    let mut name = String::from_str("Ruuvi ");
    name.append(id.to_text().as_str());
    let mut identifiers: Vec<serde_json::Value> = Vec::new();
    identifiers.push(json_string(device_id_of(id).as_str()));
    let ghost items = identifiers@;
    let list = json_array(identifiers);
    assert(items.map_values(|item| json_doc(item)) =~= seq![JsonDoc::Text(device_id(*id))]);
    let mut members = json_map_new();
    json_map_insert(&mut members, "identifiers", list);
    json_map_insert(&mut members, "name", json_string(name.as_str()));
    json_map_insert(&mut members, "manufacturer", json_string("Ruuvi"));
    json_map_insert(&mut members, "model", json_string("RuuviTag"));
    json_object(members)
}

/// The topic under which one metric of `id` is announced.
pub fn discovery_topic_of(id: &SensorId, metric: Metric) -> (topic: String)
    ensures
        topic@ == discovery_topic(*id, metric),
{
    let mut topic = String::from_str("homeassistant/sensor/");
    topic.append(device_id_of(id).as_str());
    topic.append("/");
    topic.append(metric.object_id_str());
    topic.append("/config");
    topic
}

/// The announcement of one metric of `id`, as `serde_json` writes it.
pub fn discovery_payload_of(id: &SensorId, metric: Metric) -> (payload: String)
    ensures
        payload@ == json_text(discovery_doc(*id, metric)),
{
    let mut unique = device_id_of(id);
    unique.append("_");
    unique.append(metric.object_id_str());
    let mut members = json_map_new();
    json_map_insert(&mut members, "name", json_string(metric.label_str()));
    json_map_insert(&mut members, "state_topic", json_string(decoded_topic_of(id).as_str()));
    json_map_insert(&mut members, "unit_of_measurement", json_string(metric.unit_str()));
    json_map_insert(&mut members, "value_template", json_string(metric.value_template_str()));
    json_map_insert(&mut members, "unique_id", json_string(unique.as_str()));
    json_map_insert(&mut members, "device", device_value(id));
    let document = json_object(members);
    json_to_string(&document)
}

/// The messages that announce `id`: one for temperature, one for humidity and one
/// for pressure, in that order, each retained. They depend on `id` alone, so sending
/// them again publishes the same retained content.
pub fn send_discovery(id: &SensorId) -> (messages: Vec<Message>)
    ensures
        messages@.map_values(|m: Message| m@) == discovery_messages(*id),
{
    let mut messages: Vec<Message> = Vec::new();
    messages.push(announcement(id, Metric::Temperature));
    messages.push(announcement(id, Metric::Humidity));
    messages.push(announcement(id, Metric::Pressure));
    assert(messages@.map_values(|m: Message| m@) =~= discovery_messages(*id));
    messages
}

fn announcement(id: &SensorId, metric: Metric) -> (message: Message)
    ensures
        message@ == discovery_message(*id, metric),
{
    Message {
        topic: discovery_topic_of(id, metric),
        qos: QoS::AtLeastOnce,
        retain: true,
        payload: discovery_payload_of(id, metric),
    }
}

} // verus!
