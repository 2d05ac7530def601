//! The filter: which sensors the allow-list and the deny-list let through.

use crate::config::SensorConfig;
use crate::sensor_id::SensorId;
use vstd::prelude::*;

verus! {

/// What the filter says of one sensor.
#[derive(Clone, Copy, Debug, PartialEq, Eq, Structural)]
pub enum Verdict {
    Allowed,
    /// The allow-list is in force and does not hold the sensor.
    BlockedByWhitelist,
    /// The sensor passes the allow-list, and the deny-list is in force and holds it.
    BlockedByBlacklist,
}

/// The allow-list is in force and `id` is not on it.
pub open spec fn blocked_by_whitelist(id: SensorId, cfg: SensorConfig) -> bool {
    cfg.use_whitelist && !cfg.whitelist@.contains(id)
}

/// The deny-list is in force and `id` is on it.
pub open spec fn blocked_by_blacklist(id: SensorId, cfg: SensorConfig) -> bool {
    cfg.use_blacklist && cfg.blacklist@.contains(id)
}

/// A sensor is permitted iff neither list blocks it.
pub open spec fn permitted(id: SensorId, cfg: SensorConfig) -> bool {
    !blocked_by_whitelist(id, cfg) && !blocked_by_blacklist(id, cfg)
}

/// The verdict on a sensor: the allow-list is asked first, then the deny-list.
pub open spec fn verdict_of(id: SensorId, cfg: SensorConfig) -> Verdict {
    if blocked_by_whitelist(id, cfg) {
        Verdict::BlockedByWhitelist
    } else if blocked_by_blacklist(id, cfg) {
        Verdict::BlockedByBlacklist
    } else {
        Verdict::Allowed
    }
}

/// Asks both lists about `id` and says which of them, if any, blocks it.
pub fn screen(id: &SensorId, cfg: &SensorConfig) -> (v: Verdict)
    ensures
        v == verdict_of(*id, *cfg),
        v == Verdict::Allowed <==> permitted(*id, *cfg),
{
    if cfg.use_whitelist && !cfg.whitelist.contains(id) {
        Verdict::BlockedByWhitelist
    } else if cfg.use_blacklist && cfg.blacklist.contains(id) {
        Verdict::BlockedByBlacklist
    } else {
        Verdict::Allowed
    }
}

/// Whether events of `id` are processed.
pub fn is_allowed(id: &SensorId, cfg: &SensorConfig) -> (allowed: bool)
    ensures
        allowed == permitted(*id, *cfg),
{
    match screen(id, cfg) {
        Verdict::Allowed => true,
        _ => false,
    }
}

/// With both lists switched off every sensor is permitted.
pub proof fn lemma_disabled_lists_permit_all(id: SensorId, cfg: SensorConfig)
    requires
        !cfg.use_whitelist,
        !cfg.use_blacklist,
    ensures
        permitted(id, cfg),
{
}

/// With only the allow-list in force, a sensor is permitted iff the list holds it;
/// so every sensor that is not on the list is excluded.
pub proof fn lemma_allow_list_alone(id: SensorId, cfg: SensorConfig)
    requires
        cfg.use_whitelist,
        !cfg.use_blacklist,
    ensures
        permitted(id, cfg) <==> cfg.whitelist@.contains(id),
{
}

/// With only the deny-list in force, the sensors excluded are exactly those on it.
pub proof fn lemma_deny_list_alone(id: SensorId, cfg: SensorConfig)
    requires
        !cfg.use_whitelist,
        cfg.use_blacklist,
    ensures
        !permitted(id, cfg) <==> cfg.blacklist@.contains(id),
{
}

/// A sensor on a deny-list in force is excluded, whatever the allow-list says.
pub proof fn lemma_deny_list_overrides(id: SensorId, cfg: SensorConfig)
    requires
        cfg.use_blacklist,
        cfg.blacklist@.contains(id),
    ensures
        !permitted(id, cfg),
{
}

} // verus!
