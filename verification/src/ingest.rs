//! The ingestion loop's decisions: what is done with one advertisement, given what
//! was seen before.
//!
//! The caller drains the event stream one event at a time. For a device that was
//! added it looks up the device's manufacturer data, takes the vendor's payload out
//! of it with [`extract_ruuvi_payload`] and, if there is one, hands it to
//! [`Pipeline::handle_payload`]. It carries out the returned actions in order before
//! it takes the next event. An action that fails is logged and the rest is still
//! carried out.

use crate::config::Config;
use crate::decode_ruuvi::{decode_ruuvi_raw5, decoded, DecodedReading};
use crate::dedup::{is_duplicate, recorded, DedupCache};
use crate::filter::{permitted, screen, verdict_of, Verdict};
use crate::sensor_id::SensorId;
use crate::sensor_set::SensorSet;
use std::collections::HashMap;
use vstd::prelude::*;

verus! {

broadcast use vstd::std_specs::hash::group_hash_axioms;

/// Company identifier under which the sensor vendor files its manufacturer data.
pub const RUUVI_COMPANY_ID: u16 = 0x0499;

/// What the adapter reports while it scans.
#[derive(Clone, Copy, Debug, PartialEq, Eq)]
pub enum AdvertisementEvent {
    DeviceAdded(SensorId),
    DeviceRemoved(SensorId),
    PropertyChanged,
}

/// One thing for the caller to do. Messages are built from the sensor's id and, for
/// a raw publish, from the payload that was handed in.
#[derive(Clone, Copy, Debug, PartialEq, Eq)]
pub enum Action {
    /// Report that the filter dropped the sensor, and by which list.
    ReportBlocked(Verdict),
    /// Report that the sensor was seen for the first time.
    ReportNewSensor,
    /// Publish the sensor's discovery announcements.
    SendDiscovery,
    /// Publish the raw payload.
    PublishRaw,
    /// Report the reading.
    ReportReading(DecodedReading),
    /// Publish the reading.
    PublishDecoded(DecodedReading),
    /// Report that the payload could not be decoded.
    ReportDecodeFailure,
}

/// The state of the pipeline as plain values.
pub struct PipelineView {
    /// The last payload processed for each sensor.
    pub last_payload: Map<SensorId, Seq<u8>>,
    /// The sensors that were announced, or would have been had announcing been on.
    pub known: Set<SensorId>,
}

impl PipelineView {
    /// A pipeline that has processed nothing.
    pub open spec fn initial() -> PipelineView {
        PipelineView { last_payload: Map::empty(), known: Set::empty() }
    }

    /// Every sensor with a recorded payload is known.
    pub open spec fn wf(self) -> bool {
        forall|id: SensorId| self.last_payload.contains_key(id) ==> self.known.contains(id)
    }
}

/// Whether a payload from `id` gets past the filter and the duplicate cache.
pub open spec fn processed(cfg: Config, state: PipelineView, id: SensorId, payload: Seq<u8>) -> bool {
    permitted(id, cfg.sensors) && !is_duplicate(state.last_payload, id, payload)
}

/// The state after a payload from `id` was handled.
pub open spec fn state_after(
    cfg: Config,
    state: PipelineView,
    id: SensorId,
    payload: Seq<u8>,
) -> PipelineView {
    if processed(cfg, state, id, payload) {
        PipelineView {
            last_payload: recorded(state.last_payload, id, payload),
            known: state.known.insert(id),
        }
    } else {
        state
    }
}

/// What is done for a sensor seen for the first time.
pub open spec fn new_sensor_actions(cfg: Config, state: PipelineView, id: SensorId) -> Seq<Action> {
    if state.known.contains(id) {
        seq![]
    } else if cfg.publish.discovery {
        seq![Action::ReportNewSensor, Action::SendDiscovery]
    } else {
        seq![Action::ReportNewSensor]
    }
}

/// What is done with the raw payload.
pub open spec fn raw_actions(cfg: Config) -> Seq<Action> {
    if cfg.publish.raw_data {
        seq![Action::PublishRaw]
    } else {
        seq![]
    }
}

/// What is done with the outcome of decoding.
pub open spec fn decode_actions(cfg: Config, payload: Seq<u8>) -> Seq<Action> {
    match decoded(payload) {
        Some(reading) => (if cfg.sensors.debug_print {
            seq![Action::ReportReading(reading)]
        } else {
            seq![]
        }) + (if cfg.publish.decoded_data {
            seq![Action::PublishDecoded(reading)]
        } else {
            seq![]
        }),
        None => if cfg.sensors.debug_print {
            seq![Action::ReportDecodeFailure]
        } else {
            seq![]
        },
    }
}

/// The actions for a payload from `id`, in the order in which they are carried out.
pub open spec fn actions_for(
    cfg: Config,
    state: PipelineView,
    id: SensorId,
    payload: Seq<u8>,
) -> Seq<Action> {
    if !permitted(id, cfg.sensors) {
        if cfg.sensors.debug_print {
            seq![Action::ReportBlocked(verdict_of(id, cfg.sensors))]
        } else {
            seq![]
        }
    } else if is_duplicate(state.last_payload, id, payload) {
        seq![]
    } else {
        new_sensor_actions(cfg, state, id) + raw_actions(cfg) + decode_actions(cfg, payload)
    }
}

/// The vendor's payload among a device's manufacturer data, if there is one.
pub fn extract_ruuvi_payload(data: &HashMap<u16, Vec<u8>>) -> (payload: Option<Vec<u8>>)
    ensures
        payload is Some <==> data@.contains_key(RUUVI_COMPANY_ID),
        payload matches Some(bytes) ==> bytes@ == data@[RUUVI_COMPANY_ID]@,
{
    let company: u16 = RUUVI_COMPANY_ID;
    match data.get(&company) {
        Some(bytes) => Some(bytes.clone()),
        None => None,
    }
}

/// The running session: the settings, the duplicate cache and the known sensors.
#[derive(Debug)]
pub struct Pipeline {
    pub config: Config,
    pub dedup: DedupCache,
    pub known: SensorSet,
}

impl View for Pipeline {
    type V = PipelineView;

    open spec fn view(&self) -> PipelineView {
        PipelineView { last_payload: self.dedup@, known: self.known@ }
    }
}

impl Pipeline {
    /// A session under `config` that has processed nothing.
    pub fn new(config: Config) -> (pipeline: Pipeline)
        ensures
            pipeline.config == config,
            pipeline@ == PipelineView::initial(),
    {
        Pipeline { config, dedup: DedupCache::new(), known: SensorSet::new() }
    }

    /// The sensor whose manufacturer data is to be looked up for `event`: the one
    /// that was added. Every other event asks for nothing.
    pub fn handle_event(&self, event: &AdvertisementEvent) -> (lookup: Option<SensorId>)
        ensures
            lookup == match *event {
                AdvertisementEvent::DeviceAdded(id) => Some(id),
                _ => None,
            },
    {
        match event {
            AdvertisementEvent::DeviceAdded(id) => Some(*id),
            _ => None,
        }
    }

    /// Handles one payload from `id` and returns what is to be done, in order.
    ///
    /// A sensor that the filter drops changes nothing; it is reported if reporting
    /// is on. A payload equal to the sensor's last one changes nothing and asks for
    /// nothing. Every other payload is recorded, the sensor becomes known, and the
    /// actions are: for a sensor not known before, the report of a new sensor and,
    /// if enabled, its discovery; if enabled, the raw publish; then, for a payload
    /// that decodes, the report of the reading if reporting is on and its publish if
    /// enabled, and for one that does not, the report of the failure if reporting
    /// is on.
    pub fn handle_payload(&mut self, id: &SensorId, payload: &[u8]) -> (actions: Vec<Action>)
        ensures
            final(self).config == old(self).config,
            final(self)@ == state_after(old(self).config, old(self)@, *id, payload@),
            actions@ == actions_for(old(self).config, old(self)@, *id, payload@),
            old(self)@.wf() ==> final(self)@.wf(),
    {
        let mut actions: Vec<Action> = Vec::new();
        let verdict = screen(id, &self.config.sensors);
        match verdict {
            Verdict::Allowed => {},
            _ => {
                if self.config.sensors.debug_print {
                    actions.push(Action::ReportBlocked(verdict));
                }
                assert(actions@ =~= actions_for(old(self).config, old(self)@, *id, payload@));
                return actions;
            },
        }
        if self.dedup.is_duplicate_and_record(id, payload) {
            assert(actions@ =~= actions_for(old(self).config, old(self)@, *id, payload@));
            return actions;
        }
        let fresh = self.known.insert(*id);
        if fresh {
            actions.push(Action::ReportNewSensor);
            if self.config.publish.discovery {
                actions.push(Action::SendDiscovery);
            }
        }
        assert(actions@ =~= new_sensor_actions(old(self).config, old(self)@, *id));
        if self.config.publish.raw_data {
            actions.push(Action::PublishRaw);
        }
        assert(actions@ =~= new_sensor_actions(old(self).config, old(self)@, *id) + raw_actions(
            old(self).config,
        ));
        match decode_ruuvi_raw5(payload) {
            Some(reading) => {
                if self.config.sensors.debug_print {
                    actions.push(Action::ReportReading(reading));
                }
                if self.config.publish.decoded_data {
                    actions.push(Action::PublishDecoded(reading));
                }
            },
            None => {
                if self.config.sensors.debug_print {
                    actions.push(Action::ReportDecodeFailure);
                }
            },
        }
        assert(actions@ =~= actions_for(old(self).config, old(self)@, *id, payload@));
        actions
    }
}

/// The state after a run of payloads, each given with the sensor it came from.
pub open spec fn state_after_all(
    cfg: Config,
    state: PipelineView,
    deliveries: Seq<(SensorId, Seq<u8>)>,
) -> PipelineView
    decreases deliveries.len(),
{
    if deliveries.len() == 0 {
        state
    } else {
        state_after_all(
            cfg,
            state_after(cfg, state, deliveries[0].0, deliveries[0].1),
            deliveries.drop_first(),
        )
    }
}

/// Whether handling a payload from `id` asks for the sensor's discovery.
pub open spec fn announces(cfg: Config, state: PipelineView, id: SensorId, payload: Seq<u8>) -> bool {
    actions_for(cfg, state, id, payload).contains(Action::SendDiscovery)
}

/// How often a run of payloads asks for the discovery of `id`.
pub open spec fn announcements(
    cfg: Config,
    state: PipelineView,
    deliveries: Seq<(SensorId, Seq<u8>)>,
    id: SensorId,
) -> nat
    decreases deliveries.len(),
{
    if deliveries.len() == 0 {
        0
    } else {
        let first: nat = if deliveries[0].0 == id && announces(
            cfg,
            state,
            id,
            deliveries[0].1,
        ) {
            1
        } else {
            0
        };
        first + announcements(
            cfg,
            state_after(cfg, state, deliveries[0].0, deliveries[0].1),
            deliveries.drop_first(),
            id,
        )
    }
}

/// Discovery is asked for exactly when announcing is on and a payload of a sensor
/// not known before gets past the filter and the duplicate cache.
pub proof fn lemma_announces(cfg: Config, state: PipelineView, id: SensorId, payload: Seq<u8>)
    ensures
        announces(cfg, state, id, payload) <==> cfg.publish.discovery && processed(
            cfg,
            state,
            id,
            payload,
        ) && !state.known.contains(id),
        processed(cfg, state, id, payload) ==> state_after(cfg, state, id, payload).known.contains(
            id,
        ),
{
    let target = Action::SendDiscovery;
    let all = actions_for(cfg, state, id, payload);
    if processed(cfg, state, id, payload) {
        let fresh = new_sensor_actions(cfg, state, id);
        let raw = raw_actions(cfg);
        let dec = decode_actions(cfg, payload);
        assert(all == fresh + raw + dec);
        assert(!raw.contains(target));
        assert(!dec.contains(target)) by {
            if dec.contains(target) {
                let i = choose|i: int| 0 <= i < dec.len() && dec[i] == target;
                assert(dec[i] != target);
            }
        }
        if cfg.publish.discovery && !state.known.contains(id) {
            assert(all[1] == target);
        } else {
            assert(!fresh.contains(target));
            if all.contains(target) {
                let i = choose|i: int| 0 <= i < all.len() && all[i] == target;
                if i < fresh.len() {
                    assert(fresh[i] == target);
                } else if i < fresh.len() + raw.len() {
                    assert(raw[i - fresh.len()] == target);
                } else {
                    assert(dec[i - fresh.len() - raw.len()] == target);
                }
            }
        }
    } else {
        if all.contains(target) {
            let i = choose|i: int| 0 <= i < all.len() && all[i] == target;
            assert(all[i] != target);
        }
    }
}

/// Handling a payload keeps every known sensor known and keeps the state
/// well-formed.
pub proof fn lemma_state_after_grows(
    cfg: Config,
    state: PipelineView,
    id: SensorId,
    payload: Seq<u8>,
)
    ensures
        state.known.subset_of(state_after(cfg, state, id, payload).known),
        state.wf() ==> state_after(cfg, state, id, payload).wf(),
        forall|other: SensorId|
            other != id ==> state_after(cfg, state, id, payload).known.contains(other)
                == state.known.contains(other),
{
}

/// The discovery of a sensor is asked for at most once over any run of payloads,
/// and never for a sensor that is known already.
pub proof fn lemma_discovery_at_most_once(
    cfg: Config,
    state: PipelineView,
    deliveries: Seq<(SensorId, Seq<u8>)>,
    id: SensorId,
)
    ensures
        announcements(cfg, state, deliveries, id) <= 1,
        state.known.contains(id) ==> announcements(cfg, state, deliveries, id) == 0,
    decreases deliveries.len(),
{
    if deliveries.len() > 0 {
        let next = state_after(cfg, state, deliveries[0].0, deliveries[0].1);
        lemma_announces(cfg, state, deliveries[0].0, deliveries[0].1);
        lemma_state_after_grows(cfg, state, deliveries[0].0, deliveries[0].1);
        lemma_discovery_at_most_once(cfg, next, deliveries.drop_first(), id);
    }
}

/// With announcing on, the discovery of a permitted sensor that is not yet known is
/// asked for exactly once over any run of payloads in which the sensor occurs,
/// however often it occurs.
pub proof fn lemma_discovery_exactly_once(
    cfg: Config,
    state: PipelineView,
    deliveries: Seq<(SensorId, Seq<u8>)>,
    id: SensorId,
)
    requires
        state.wf(),
        cfg.publish.discovery,
        permitted(id, cfg.sensors),
        !state.known.contains(id),
        exists|i: int| 0 <= i < deliveries.len() && deliveries[i].0 == id,
    ensures
        announcements(cfg, state, deliveries, id) == 1,
    decreases deliveries.len(),
{
    let first = deliveries[0];
    let next = state_after(cfg, state, first.0, first.1);
    let rest = deliveries.drop_first();
    lemma_announces(cfg, state, first.0, first.1);
    lemma_state_after_grows(cfg, state, first.0, first.1);
    if first.0 == id {
        assert(!state.last_payload.contains_key(id));
        assert(announces(cfg, state, id, first.1));
        lemma_discovery_at_most_once(cfg, next, rest, id);
    } else {
        let i = choose|i: int| 0 <= i < deliveries.len() && deliveries[i].0 == id;
        assert(rest[i - 1] == deliveries[i]);
        lemma_discovery_exactly_once(cfg, next, rest, id);
    }
}

/// Over any run of payloads a sensor that is known stays known, and a well-formed
/// state stays well-formed.
pub proof fn lemma_known_sensors_stay_known(
    cfg: Config,
    state: PipelineView,
    deliveries: Seq<(SensorId, Seq<u8>)>,
)
    ensures
        state.known.subset_of(state_after_all(cfg, state, deliveries).known),
        state.wf() ==> state_after_all(cfg, state, deliveries).wf(),
    decreases deliveries.len(),
{
    if deliveries.len() > 0 {
        let next = state_after(cfg, state, deliveries[0].0, deliveries[0].1);
        lemma_state_after_grows(cfg, state, deliveries[0].0, deliveries[0].1);
        lemma_known_sensors_stay_known(cfg, next, deliveries.drop_first());
    }
}

} // verus!
