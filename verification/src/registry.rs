//! The handle wrapper registry: process-wide concurrent maps from opaque
//! handle values to wrapper records, and the per-call fault boundary that
//! turns an unexpected fault into a permanently poisoned instance.
//!
//! The maps are `dashmap::DashMap`s, sharded so that calls on unrelated
//! handles never serialize on one global lock. The library sees each map
//! through a small set of trusted wrappers whose contracts speak of the
//! map's contents as a `Map<u64, _>`.
use vstd::prelude::*;

use crate::records::{InstanceRecord, SessionRecord, SwapchainRecord};
use crate::LayerError;
use dashmap::DashMap;

verus! {

#[verifier::external_type_specification]
#[verifier::external_body]
#[verifier::reject_recursive_types(K)]
#[verifier::reject_recursive_types(V)]
#[verifier::reject_recursive_types(S)]
pub struct ExDashMap<K, V, S>(DashMap<K, V, S>);

/// Shorthand for the three registry map types.
pub type InstanceMap = DashMap<u64, InstanceRecord>;

pub type SessionMap = DashMap<u64, SessionRecord>;

pub type SwapchainMap = DashMap<u64, SwapchainRecord>;

/// The entries an instance map holds, as a mathematical map.
pub uninterp spec fn instance_map_view(m: DashMap<u64, InstanceRecord>) -> Map<
    u64,
    InstanceRecord,
>;

/// The entries a session map holds, as a mathematical map.
pub uninterp spec fn session_map_view(m: DashMap<u64, SessionRecord>) -> Map<u64, SessionRecord>;

/// The entries a swapchain map holds, as a mathematical map.
pub uninterp spec fn swapchain_map_view(m: DashMap<u64, SwapchainRecord>) -> Map<
    u64,
    SwapchainRecord,
>;

/// Relies on dashmap::DashMap::new: a freshly created map holds no entries.
#[verifier::external_body]
fn instance_map_new() -> (m: InstanceMap)
    ensures
        forall|k: u64| !instance_map_view(m).dom().contains(k),
{
    DashMap::new()
}

/// Relies on dashmap::DashMap::insert: after the call the key maps to the
/// given value, replacing any earlier entry; no other entry changes.
#[verifier::external_body]
fn instance_map_insert(m: &mut DashMap<u64, InstanceRecord>, k: u64, v: InstanceRecord)
    ensures
        instance_map_view(*final(m)) == instance_map_view(*old(m)).insert(k, v),
{
    m.insert(k, v);
}

/// Relies on dashmap::DashMap::get: returns the value the key maps to, if
/// any. The body hands out a clone of the stored record, equal to it field
/// for field.
#[verifier::external_body]
fn instance_map_get(m: &DashMap<u64, InstanceRecord>, k: u64) -> (r: Option<InstanceRecord>)
    ensures
        r == (if instance_map_view(*m).dom().contains(k) {
            Some(instance_map_view(*m)[k])
        } else {
            None::<InstanceRecord>
        }),
{
    m.get(&k).map(|entry| entry.value().clone())
}

/// Relies on dashmap::DashMap::remove: takes the key's entry out of the map
/// and returns its value, if the key was present; no other entry changes.
#[verifier::external_body]
fn instance_map_remove(m: &mut DashMap<u64, InstanceRecord>, k: u64) -> (r: Option<InstanceRecord>)
    ensures
        instance_map_view(*final(m)) == instance_map_view(*old(m)).remove(k),
        r == (if instance_map_view(*old(m)).dom().contains(k) {
            Some(instance_map_view(*old(m))[k])
        } else {
            None::<InstanceRecord>
        }),
{
    m.remove(&k).map(|(_, v)| v)
}

/// Relies on dashmap::DashMap::new: a freshly created map holds no entries.
#[verifier::external_body]
fn session_map_new() -> (m: SessionMap)
    ensures
        forall|k: u64| !session_map_view(m).dom().contains(k),
{
    DashMap::new()
}

/// Relies on dashmap::DashMap::insert: after the call the key maps to the
/// given value, replacing any earlier entry; no other entry changes.
#[verifier::external_body]
fn session_map_insert(m: &mut DashMap<u64, SessionRecord>, k: u64, v: SessionRecord)
    ensures
        session_map_view(*final(m)) == session_map_view(*old(m)).insert(k, v),
{
    m.insert(k, v);
}

/// Relies on dashmap::DashMap::get: returns the value the key maps to, if
/// any. The body hands out a clone of the stored record, equal to it field
/// for field.
#[verifier::external_body]
fn session_map_get(m: &DashMap<u64, SessionRecord>, k: u64) -> (r: Option<SessionRecord>)
    ensures
        r == (if session_map_view(*m).dom().contains(k) {
            Some(session_map_view(*m)[k])
        } else {
            None::<SessionRecord>
        }),
{
    m.get(&k).map(|entry| entry.value().clone())
}

/// Relies on dashmap::DashMap::remove: takes the key's entry out of the map
/// and returns its value, if the key was present; no other entry changes.
#[verifier::external_body]
fn session_map_remove(m: &mut DashMap<u64, SessionRecord>, k: u64) -> (r: Option<SessionRecord>)
    ensures
        session_map_view(*final(m)) == session_map_view(*old(m)).remove(k),
        r == (if session_map_view(*old(m)).dom().contains(k) {
            Some(session_map_view(*old(m))[k])
        } else {
            None::<SessionRecord>
        }),
{
    m.remove(&k).map(|(_, v)| v)
}

/// Relies on dashmap::DashMap::new: a freshly created map holds no entries.
#[verifier::external_body]
fn swapchain_map_new() -> (m: SwapchainMap)
    ensures
        forall|k: u64| !swapchain_map_view(m).dom().contains(k),
{
    DashMap::new()
}

/// Relies on dashmap::DashMap::insert: after the call the key maps to the
/// given value, replacing any earlier entry; no other entry changes.
#[verifier::external_body]
fn swapchain_map_insert(m: &mut DashMap<u64, SwapchainRecord>, k: u64, v: SwapchainRecord)
    ensures
        swapchain_map_view(*final(m)) == swapchain_map_view(*old(m)).insert(k, v),
{
    m.insert(k, v);
}

/// Relies on dashmap::DashMap::get: returns the value the key maps to, if
/// any. The body hands out a clone of the stored record, equal to it field
/// for field.
#[verifier::external_body]
fn swapchain_map_get(m: &DashMap<u64, SwapchainRecord>, k: u64) -> (r: Option<SwapchainRecord>)
    ensures
        r == (if swapchain_map_view(*m).dom().contains(k) {
            Some(swapchain_map_view(*m)[k])
        } else {
            None::<SwapchainRecord>
        }),
{
    m.get(&k).map(|entry| entry.value().clone())
}

/// Relies on dashmap::DashMap::remove: takes the key's entry out of the map
/// and returns its value, if the key was present; no other entry changes.
#[verifier::external_body]
fn swapchain_map_remove(m: &mut DashMap<u64, SwapchainRecord>, k: u64) -> (r: Option<
    SwapchainRecord,
>)
    ensures
        swapchain_map_view(*final(m)) == swapchain_map_view(*old(m)).remove(k),
        r == (if swapchain_map_view(*old(m)).dom().contains(k) {
            Some(swapchain_map_view(*old(m))[k])
        } else {
            None::<SwapchainRecord>
        }),
{
    m.remove(&k).map(|(_, v)| v)
}

/// The layer's whole mutable state: one record map per handle kind,
/// constructed once at process attach and passed by reference into every
/// entry point.
pub struct LayerContext {
    pub instances: DashMap<u64, InstanceRecord>,
    pub sessions: DashMap<u64, SessionRecord>,
    pub swapchains: DashMap<u64, SwapchainRecord>,
}

/// The record with its poison flag raised; everything else is kept.
pub open spec fn spec_poisoned(r: InstanceRecord) -> InstanceRecord {
    InstanceRecord { poison: true, ..r }
}

/// Whether a call on the given instance handle may proceed: the handle must
/// have a live record, and the record must not be poisoned.
pub open spec fn spec_check_instance(insts: Map<u64, InstanceRecord>, h: u64) -> Result<
    (),
    LayerError,
> {
    if !insts.dom().contains(h) {
        Err(LayerError::HandleInvalid)
    } else if insts[h].poison {
        Err(LayerError::InstanceLost)
    } else {
        Ok(())
    }
}

/// Whether a call on the given session handle may proceed: the session and
/// its owning instance must both have live records, and the owning instance
/// must not be poisoned.
pub open spec fn spec_check_session(
    insts: Map<u64, InstanceRecord>,
    sessions: Map<u64, SessionRecord>,
    h: u64,
) -> Result<(), LayerError> {
    if !sessions.dom().contains(h) {
        Err(LayerError::HandleInvalid)
    } else {
        spec_check_instance(insts, sessions[h].instance)
    }
}

/// Whether a call on the given swapchain handle may proceed: the swapchain
/// and its owning instance must both have live records, and the owning
/// instance must not be poisoned.
pub open spec fn spec_check_swapchain(
    insts: Map<u64, InstanceRecord>,
    swapchains: Map<u64, SwapchainRecord>,
    h: u64,
) -> Result<(), LayerError> {
    if !swapchains.dom().contains(h) {
        Err(LayerError::HandleInvalid)
    } else {
        spec_check_instance(insts, swapchains[h].instance)
    }
}

impl LayerContext {
    /// The instance records, as a mathematical map.
    pub open spec fn insts(self) -> Map<u64, InstanceRecord> {
        instance_map_view(self.instances)
    }

    /// The session records, as a mathematical map.
    pub open spec fn sess(self) -> Map<u64, SessionRecord> {
        session_map_view(self.sessions)
    }

    /// The swapchain records, as a mathematical map.
    pub open spec fn swaps(self) -> Map<u64, SwapchainRecord> {
        swapchain_map_view(self.swapchains)
    }

    /// Builds the registry with no records; done once at process attach.
    pub fn new() -> (ctx: LayerContext)
        ensures
            ctx.insts() == Map::<u64, InstanceRecord>::empty(),
            ctx.sess() == Map::<u64, SessionRecord>::empty(),
            ctx.swaps() == Map::<u64, SwapchainRecord>::empty(),
    {
        let ctx = LayerContext {
            instances: instance_map_new(),
            sessions: session_map_new(),
            swapchains: swapchain_map_new(),
        };
        proof {
            assert(ctx.insts() =~= Map::<u64, InstanceRecord>::empty());
            assert(ctx.sess() =~= Map::<u64, SessionRecord>::empty());
            assert(ctx.swaps() =~= Map::<u64, SwapchainRecord>::empty());
        }
        ctx
    }

    /// Stores (or replaces) the record for an instance handle.
    pub fn put_instance(&mut self, h: u64, r: InstanceRecord)
        ensures
            final(self).insts() == old(self).insts().insert(h, r),
            final(self).sess() == old(self).sess(),
            final(self).swaps() == old(self).swaps(),
    {
        instance_map_insert(&mut self.instances, h, r);
    }

    /// Looks an instance record up by handle.
    pub fn get_instance(&self, h: u64) -> (r: Option<InstanceRecord>)
        ensures
            r == (if self.insts().dom().contains(h) {
                Some(self.insts()[h])
            } else {
                None::<InstanceRecord>
            }),
    {
        instance_map_get(&self.instances, h)
    }

    /// Drops the record for an instance handle, returning it if it existed.
    pub fn remove_instance(&mut self, h: u64) -> (r: Option<InstanceRecord>)
        ensures
            final(self).insts() == old(self).insts().remove(h),
            final(self).sess() == old(self).sess(),
            final(self).swaps() == old(self).swaps(),
            r == (if old(self).insts().dom().contains(h) {
                Some(old(self).insts()[h])
            } else {
                None::<InstanceRecord>
            }),
    {
        instance_map_remove(&mut self.instances, h)
    }

    /// Stores (or replaces) the record for a session handle.
    pub fn put_session(&mut self, h: u64, r: SessionRecord)
        ensures
            final(self).sess() == old(self).sess().insert(h, r),
            final(self).insts() == old(self).insts(),
            final(self).swaps() == old(self).swaps(),
    {
        session_map_insert(&mut self.sessions, h, r);
    }

    /// Looks a session record up by handle.
    pub fn get_session(&self, h: u64) -> (r: Option<SessionRecord>)
        ensures
            r == (if self.sess().dom().contains(h) {
                Some(self.sess()[h])
            } else {
                None::<SessionRecord>
            }),
    {
        session_map_get(&self.sessions, h)
    }

    /// Drops the record for a session handle, returning it if it existed.
    pub fn remove_session(&mut self, h: u64) -> (r: Option<SessionRecord>)
        ensures
            final(self).sess() == old(self).sess().remove(h),
            final(self).insts() == old(self).insts(),
            final(self).swaps() == old(self).swaps(),
            r == (if old(self).sess().dom().contains(h) {
                Some(old(self).sess()[h])
            } else {
                None::<SessionRecord>
            }),
    {
        session_map_remove(&mut self.sessions, h)
    }

    /// Stores (or replaces) the record for a swapchain handle.
    pub fn put_swapchain(&mut self, h: u64, r: SwapchainRecord)
        ensures
            final(self).swaps() == old(self).swaps().insert(h, r),
            final(self).insts() == old(self).insts(),
            final(self).sess() == old(self).sess(),
    {
        swapchain_map_insert(&mut self.swapchains, h, r);
    }

    /// Looks a swapchain record up by handle.
    pub fn get_swapchain(&self, h: u64) -> (r: Option<SwapchainRecord>)
        ensures
            r == (if self.swaps().dom().contains(h) {
                Some(self.swaps()[h])
            } else {
                None::<SwapchainRecord>
            }),
    {
        swapchain_map_get(&self.swapchains, h)
    }

    /// Drops the record for a swapchain handle, returning it if it existed.
    pub fn remove_swapchain(&mut self, h: u64) -> (r: Option<SwapchainRecord>)
        ensures
            final(self).swaps() == old(self).swaps().remove(h),
            final(self).insts() == old(self).insts(),
            final(self).sess() == old(self).sess(),
            r == (if old(self).swaps().dom().contains(h) {
                Some(old(self).swaps()[h])
            } else {
                None::<SwapchainRecord>
            }),
    {
        swapchain_map_remove(&mut self.swapchains, h)
    }

    /// The guard every intercepted instance-handle call passes first:
    /// "handle invalid" without a live record, "instance lost" once the
    /// instance is poisoned, and only otherwise may the call's body run.
    pub fn check_instance_call(&self, h: u64) -> (r: Result<(), LayerError>)
        ensures
            r == spec_check_instance(self.insts(), h),
    {
        match self.get_instance(h) {
            None => Err(LayerError::HandleInvalid),
            Some(rec) => {
                if rec.poison {
                    Err(LayerError::InstanceLost)
                } else {
                    Ok(())
                }
            },
        }
    }

    /// The same guard for session-handle calls; the poison flag is read from
    /// the session's owning instance.
    pub fn check_session_call(&self, h: u64) -> (r: Result<(), LayerError>)
        ensures
            r == spec_check_session(self.insts(), self.sess(), h),
    {
        match self.get_session(h) {
            None => Err(LayerError::HandleInvalid),
            Some(rec) => self.check_instance_call(rec.instance),
        }
    }

    /// The same guard for swapchain-handle calls; the poison flag is read
    /// from the swapchain's owning instance.
    pub fn check_swapchain_call(&self, h: u64) -> (r: Result<(), LayerError>)
        ensures
            r == spec_check_swapchain(self.insts(), self.swaps(), h),
    {
        match self.get_swapchain(h) {
            None => Err(LayerError::HandleInvalid),
            Some(rec) => self.check_instance_call(rec.instance),
        }
    }

    /// Marks an instance permanently poisoned; called when a fault is
    /// caught at the dispatch boundary of a call on it. Unknown handles are
    /// left alone.
    pub fn poison_instance(&mut self, h: u64)
        ensures
            old(self).insts().dom().contains(h) ==> final(self).insts() == old(
                self,
            ).insts().insert(h, spec_poisoned(old(self).insts()[h])),
            !old(self).insts().dom().contains(h) ==> final(self).insts() == old(self).insts(),
            final(self).sess() == old(self).sess(),
            final(self).swaps() == old(self).swaps(),
    {
        match self.get_instance(h) {
            None => (),
            Some(rec) => {
                let mut rec = rec;
                rec.poison = true;
                self.put_instance(h, rec);
            },
        }
    }

    /// Poisons the instance that owns the given session; called when a
    /// fault is caught during a call on the session handle.
    pub fn poison_session_owner(&mut self, h: u64)
        ensures
            final(self).sess() == old(self).sess(),
            final(self).swaps() == old(self).swaps(),
            old(self).sess().dom().contains(h) && old(self).insts().dom().contains(
                old(self).sess()[h].instance,
            ) ==> final(self).insts() == old(self).insts().insert(
                old(self).sess()[h].instance,
                spec_poisoned(old(self).insts()[old(self).sess()[h].instance]),
            ),
            !(old(self).sess().dom().contains(h) && old(self).insts().dom().contains(
                old(self).sess()[h].instance,
            )) ==> final(self).insts() == old(self).insts(),
    {
        match self.get_session(h) {
            None => (),
            Some(rec) => self.poison_instance(rec.instance),
        }
    }

    /// Poisons the instance that owns the given swapchain; called when a
    /// fault is caught during a call on the swapchain handle.
    pub fn poison_swapchain_owner(&mut self, h: u64)
        ensures
            final(self).sess() == old(self).sess(),
            final(self).swaps() == old(self).swaps(),
            old(self).swaps().dom().contains(h) && old(self).insts().dom().contains(
                old(self).swaps()[h].instance,
            ) ==> final(self).insts() == old(self).insts().insert(
                old(self).swaps()[h].instance,
                spec_poisoned(old(self).insts()[old(self).swaps()[h].instance]),
            ),
            !(old(self).swaps().dom().contains(h) && old(self).insts().dom().contains(
                old(self).swaps()[h].instance,
            )) ==> final(self).insts() == old(self).insts(),
    {
        match self.get_swapchain(h) {
            None => (),
            Some(rec) => self.poison_instance(rec.instance),
        }
    }
}

/// Poison propagation: once an instance's record is poisoned, the call gate
/// answers "instance lost" for the instance itself and for every session or
/// swapchain whose ownership chain passes through it, so no further logic
/// runs on that instance tree.
pub proof fn lemma_poison_propagation(
    insts: Map<u64, InstanceRecord>,
    sessions: Map<u64, SessionRecord>,
    swapchains: Map<u64, SwapchainRecord>,
    i: u64,
    s: u64,
    w: u64,
)
    requires
        insts.dom().contains(i),
        insts[i].poison,
    ensures
        spec_check_instance(insts, i) == Err::<(), LayerError>(LayerError::InstanceLost),
        sessions.dom().contains(s) && sessions[s].instance == i ==> spec_check_session(
            insts,
            sessions,
            s,
        ) == Err::<(), LayerError>(LayerError::InstanceLost),
        swapchains.dom().contains(w) && swapchains[w].instance == i ==> spec_check_swapchain(
            insts,
            swapchains,
            w,
        ) == Err::<(), LayerError>(LayerError::InstanceLost),
{
}

/// Marking any instance record poisoned closes its call guard for good:
/// in the registry state that results, a call on that instance answers
/// "instance lost", whatever the record held before.
pub proof fn lemma_poison_is_permanent(insts: Map<u64, InstanceRecord>, i: u64)
    requires
        insts.dom().contains(i),
    ensures
        spec_check_instance(insts.insert(i, spec_poisoned(insts[i])), i) == Err::<
            (),
            LayerError,
        >(LayerError::InstanceLost),
{
}

} // verus!
