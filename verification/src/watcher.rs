//! Watcher: which devices have a live session, and what a hot-plug event
//! means for them.

use crate::identity::{device_id_for, fallback_id_for, spec_device_id, spec_fallback_id};
use crate::registry::{classify, spec_classify, DeviceProfile};
use crate::table::IdTable;
use vstd::prelude::*;

verus! {

/// What the bus tells of a device.
#[derive(Debug, Clone)]
pub struct DeviceInfo {
    pub vendor_id: u16,
    pub product_id: u16,
    pub serial_number: Option<String>,
    /// The identifier the operating system gave the device, as text.
    pub internal_id: String,
}

/// A device that is in the capability table, ready for a session.
#[derive(Debug, Clone)]
pub struct CandidateDevice {
    pub id: String,
    pub dev: DeviceInfo,
    /// Looked up once, here, and used for as long as the session lives.
    pub profile: DeviceProfile,
}

#[derive(Debug, Clone)]
pub enum DeviceLifecycleEvent {
    Connected(DeviceInfo),
    Disconnected(DeviceInfo),
}

/// What the watcher's loop has to do after an event.
#[derive(Debug, Clone)]
pub enum WatchAction {
    /// Nothing: the device is not in the capability table, or it already
    /// has a session, or it had none to end.
    Ignore,
    /// Start a session for this device.
    Spawn(CandidateDevice),
    /// Cancel the session of this identifier and deregister the device.
    Cancel(String),
}

/// A watch action as a plain value.
pub ghost enum Verdict {
    Ignore,
    Spawn(Seq<char>, DeviceProfile),
    Cancel(Seq<char>),
}

impl View for WatchAction {
    type V = Verdict;

    open spec fn view(&self) -> Verdict {
        match self {
            WatchAction::Ignore => Verdict::Ignore,
            WatchAction::Spawn(candidate) => Verdict::Spawn(candidate.id@, candidate.profile),
            WatchAction::Cancel(id) => Verdict::Cancel(id@),
        }
    }
}

pub open spec fn serial_view(info: DeviceInfo) -> Option<Seq<char>> {
    match info.serial_number {
        Some(s) => Some(s@),
        None => None,
    }
}

/// The identifier of a device, where the capability table has its kind.
pub open spec fn spec_id_of(info: DeviceInfo) -> Option<Seq<char>> {
    match spec_classify(info.vendor_id, info.product_id) {
        Some(profile) => Some(
            spec_device_id(
                serial_view(info),
                info.vendor_id,
                info.product_id,
                profile.kind,
                info.internal_id@,
            ),
        ),
        None => None,
    }
}

/// A candidate carries the identifier and the profile that its device
/// classifies to.
pub open spec fn candidate_of(candidate: CandidateDevice, info: DeviceInfo) -> bool {
    &&& candidate.dev == info
    &&& Some(candidate.profile) == spec_classify(info.vendor_id, info.product_id)
    &&& Some(candidate.id@) == spec_id_of(info)
    &&& candidate.profile.wf()
}

/// The identifier under which a device would be known, or `None` for a
/// device outside the capability table.
pub fn device_info_to_id(dev: &DeviceInfo) -> (id: Option<String>)
    ensures
        match id {
            Some(s) => spec_id_of(*dev) == Some(s@),
            None => spec_id_of(*dev) is None,
        },
{
    match classify(dev.vendor_id, dev.product_id) {
        Some(profile) => Some(
            device_id_for(
                dev.serial_number.as_ref(),
                dev.vendor_id,
                dev.product_id,
                &profile.kind,
                dev.internal_id.as_str(),
            ),
        ),
        None => None,
    }
}

/// Classifies a device: a candidate for a device in the capability table,
/// `None` for any other.
pub fn device_info_to_candidate(dev: DeviceInfo) -> (candidate: Option<CandidateDevice>)
    ensures
        match candidate {
            Some(c) => candidate_of(c, dev),
            None => spec_classify(dev.vendor_id, dev.product_id) is None,
        },
{
    match classify(dev.vendor_id, dev.product_id) {
        Some(profile) => {
            let id = device_id_for(
                dev.serial_number.as_ref(),
                dev.vendor_id,
                dev.product_id,
                &profile.kind,
                dev.internal_id.as_str(),
            );
            Some(CandidateDevice { id, dev, profile })
        },
        None => None,
    }
}

fn copy_info(dev: &DeviceInfo) -> (copy: DeviceInfo)
    ensures
        copy == *dev,
{
    let serial_number = match &dev.serial_number {
        Some(s) => Some(s.clone()),
        None => None,
    };
    DeviceInfo {
        vendor_id: dev.vendor_id,
        product_id: dev.product_id,
        serial_number,
        internal_id: dev.internal_id.clone(),
    }
}

/// The devices among `infos` that the capability table knows, in order.
pub open spec fn spec_recognised(infos: Seq<DeviceInfo>) -> Seq<DeviceInfo> {
    infos.filter(|d: DeviceInfo| spec_classify(d.vendor_id, d.product_id) is Some)
}

/// Picks the devices that the capability table knows out of what the bus
/// lists, each with its identifier and profile. The others are passed over.
pub fn get_candidates(infos: &Vec<DeviceInfo>) -> (candidates: Vec<CandidateDevice>)
    ensures
        candidates@.len() == spec_recognised(infos@).len(),
        forall|i: int|
            0 <= i < candidates@.len() ==> candidate_of(
                #[trigger] candidates@[i],
                spec_recognised(infos@)[i],
            ),
{
    let mut candidates: Vec<CandidateDevice> = Vec::new();
    let mut i: usize = 0;
    proof {
        reveal(Seq::filter);
        assert(infos@.take(0) =~= Seq::<DeviceInfo>::empty());
    }
    while i < infos.len()
        invariant
            i <= infos@.len(),
            candidates@.len() == spec_recognised(infos@.take(i as int)).len(),
            forall|k: int|
                0 <= k < candidates@.len() ==> candidate_of(
                    #[trigger] candidates@[k],
                    spec_recognised(infos@.take(i as int))[k],
                ),
        decreases infos@.len() - i,
    {
        proof {
            reveal(Seq::filter);
            assert(infos@.take(i + 1).drop_last() =~= infos@.take(i as int));
            assert(infos@.take(i + 1).last() == infos@[i as int]);
        }
        match device_info_to_candidate(copy_info(&infos[i])) {
            Some(candidate) => {
                candidates.push(candidate);
            },
            None => {},
        }
        i += 1;
    }
    assert(infos@.take(infos@.len() as int) =~= infos@);
    candidates
}

/// The identifier a device has when its serial number is left aside.
pub open spec fn spec_spare_id_of(info: DeviceInfo) -> Option<Seq<char>> {
    match spec_classify(info.vendor_id, info.product_id) {
        Some(profile) => Some(
            spec_fallback_id(info.vendor_id, info.product_id, profile.kind, info.internal_id@),
        ),
        None => None,
    }
}

/// The live sessions, as plain values.
pub ghost struct Live {
    /// For each identifier with a session: the profile of its device and the
    /// id the operating system gave it.
    pub sessions: Map<Seq<char>, (DeviceProfile, Seq<char>)>,
    /// For each device with a session, by the id the operating system gave
    /// it: the identifier of its session.
    pub holders: Map<Seq<char>, Seq<char>>,
}

impl Live {
    pub open spec fn nothing() -> Live {
        Live { sessions: Map::empty(), holders: Map::empty() }
    }

    /// Sessions and holders say the same: every session belongs to one
    /// device, and no device has two.
    pub open spec fn consistent(self) -> bool {
        &&& forall|id: Seq<char>| #[trigger]
            self.sessions.contains_key(id) ==> self.holders.contains_key(self.sessions[id].1)
                && self.holders[self.sessions[id].1] == id
        &&& forall|k: Seq<char>| #[trigger]
            self.holders.contains_key(k) ==> self.sessions.contains_key(self.holders[k])
                && self.sessions[self.holders[k]].1 == k
    }

    pub open spec fn with(self, id: Seq<char>, profile: DeviceProfile, internal_id: Seq<char>)
        -> Live {
        Live {
            sessions: self.sessions.insert(id, (profile, internal_id)),
            holders: self.holders.insert(internal_id, id),
        }
    }

    pub open spec fn without(self, id: Seq<char>) -> Live {
        if self.sessions.contains_key(id) {
            Live {
                sessions: self.sessions.remove(id),
                holders: self.holders.remove(self.sessions[id].1),
            }
        } else {
            self
        }
    }
}

/// The identifier a connecting device gets. A device that has a session
/// gets none. Otherwise it gets the identifier built on its serial number
/// or, where another device lives under that one, the identifier built on
/// its stand-in; where that is taken too, none.
pub open spec fn spec_assigned_id(live: Live, info: DeviceInfo) -> Option<Seq<char>> {
    match (spec_id_of(info), spec_spare_id_of(info)) {
        (Some(id), Some(spare)) => if live.holders.contains_key(info.internal_id@) {
            None
        } else if !live.sessions.contains_key(id) {
            Some(id)
        } else if !live.sessions.contains_key(spare) {
            Some(spare)
        } else {
            None
        },
        _ => None,
    }
}

/// The identifier under which a device has a live session, if the
/// capability table knows the device and it has one.
pub open spec fn spec_held_id(live: Live, info: DeviceInfo) -> Option<Seq<char>> {
    if spec_classify(info.vendor_id, info.product_id) is Some && live.holders.contains_key(
        info.internal_id@,
    ) {
        Some(live.holders[info.internal_id@])
    } else {
        None
    }
}

/// The live sessions after a hot-plug event.
pub open spec fn spec_live_after(live: Live, event: DeviceLifecycleEvent) -> Live {
    match event {
        DeviceLifecycleEvent::Connected(info) => match spec_assigned_id(live, info) {
            Some(id) => live.with(
                id,
                spec_classify(info.vendor_id, info.product_id).unwrap(),
                info.internal_id@,
            ),
            None => live,
        },
        DeviceLifecycleEvent::Disconnected(info) => match spec_held_id(live, info) {
            Some(id) => live.without(id),
            None => live,
        },
    }
}

/// What a hot-plug event calls for, given the live sessions.
pub open spec fn spec_verdict(live: Live, event: DeviceLifecycleEvent) -> Verdict {
    match event {
        DeviceLifecycleEvent::Connected(info) => match spec_assigned_id(live, info) {
            Some(id) => Verdict::Spawn(id, spec_classify(info.vendor_id, info.product_id).unwrap()),
            None => Verdict::Ignore,
        },
        DeviceLifecycleEvent::Disconnected(info) => match spec_held_id(live, info) {
            Some(id) => Verdict::Cancel(id),
            None => Verdict::Ignore,
        },
    }
}

/// The device an event tells of.
pub open spec fn spec_subject(event: DeviceLifecycleEvent) -> DeviceInfo {
    match event {
        DeviceLifecycleEvent::Connected(info) => info,
        DeviceLifecycleEvent::Disconnected(info) => info,
    }
}

/// A spawned candidate carries its device, the profile that the device
/// classifies to, and the identifier assigned to it.
pub open spec fn spawned_for(candidate: CandidateDevice, live: Live, info: DeviceInfo) -> bool {
    &&& candidate.dev == info
    &&& Some(candidate.profile) == spec_classify(info.vendor_id, info.product_id)
    &&& Some(candidate.id@) == spec_assigned_id(live, info)
    &&& candidate.profile.wf()
}

/// The table of live sessions, and the decisions that go by it.
pub struct Watcher {
    sessions: IdTable<(DeviceProfile, String)>,
    holders: IdTable<String>,
}

impl Watcher {
    pub closed spec fn tables_wf(&self) -> bool {
        self.sessions.wf() && self.holders.wf()
    }

    pub open spec fn wf(&self) -> bool {
        self.tables_wf() && self@.consistent()
    }

    /// The live sessions.
    pub closed spec fn view(&self) -> Live {
        Live {
            sessions: Map::new(
                |id: Seq<char>| self.sessions@.contains_key(id),
                |id: Seq<char>| (self.sessions@[id].0, self.sessions@[id].1@),
            ),
            holders: Map::new(
                |k: Seq<char>| self.holders@.contains_key(k),
                |k: Seq<char>| self.holders@[k]@,
            ),
        }
    }

    pub fn new() -> (watcher: Self)
        ensures
            watcher.wf(),
            watcher@ == Live::nothing(),
    {
        let watcher = Watcher { sessions: IdTable::new(), holders: IdTable::new() };
        assert(watcher@.sessions =~= Live::nothing().sessions);
        assert(watcher@.holders =~= Live::nothing().holders);
        watcher
    }

    /// Whether a session is live for this identifier.
    pub fn is_live(&self, id: &String) -> (yes: bool)
        requires
            self.wf(),
        ensures
            yes == self@.sessions.contains_key(id@),
    {
        self.sessions.contains(id)
    }

    fn enrol(&mut self, id: &String, profile: DeviceProfile, internal_id: &String)
        requires
            old(self).wf(),
            !old(self)@.sessions.contains_key(id@),
            !old(self)@.holders.contains_key(internal_id@),
        ensures
            final(self).wf(),
            final(self)@ == old(self)@.with(id@, profile, internal_id@),
    {
        self.sessions.insert(id.clone(), (profile, internal_id.clone()));
        self.holders.insert(internal_id.clone(), id.clone());
        assert(self@.sessions =~= old(self)@.with(id@, profile, internal_id@).sessions);
        assert(self@.holders =~= old(self)@.with(id@, profile, internal_id@).holders);
        assert(self@.consistent()) by {
            assert forall|other: Seq<char>| #[trigger]
                self@.sessions.contains_key(other) implies self@.holders.contains_key(
                self@.sessions[other].1,
            ) && self@.holders[self@.sessions[other].1] == other by {
                if other != id@ {
                    assert(old(self)@.sessions.contains_key(other));
                }
            }
            assert forall|k: Seq<char>| #[trigger]
                self@.holders.contains_key(k) implies self@.sessions.contains_key(
                self@.holders[k],
            ) && self@.sessions[self@.holders[k]].1 == k by {
                if k != internal_id@ {
                    assert(old(self)@.holders.contains_key(k));
                }
            }
        }
    }

    fn release(&mut self, id: &String) -> (was_live: bool)
        requires
            old(self).wf(),
        ensures
            final(self).wf(),
            final(self)@ == old(self)@.without(id@),
            was_live == old(self)@.sessions.contains_key(id@),
    {
        match self.sessions.remove(id) {
            Some(entry) => {
                assert(old(self)@.sessions.contains_key(id@));
                self.holders.remove(&entry.1);
                assert(self@.sessions =~= old(self)@.without(id@).sessions);
                assert(self@.holders =~= old(self)@.without(id@).holders);
                assert(self@.consistent()) by {
                    assert forall|other: Seq<char>| #[trigger]
                        self@.sessions.contains_key(other) implies self@.holders.contains_key(
                        self@.sessions[other].1,
                    ) && self@.holders[self@.sessions[other].1] == other by {
                        assert(old(self)@.sessions.contains_key(other));
                    }
                    assert forall|k: Seq<char>| #[trigger]
                        self@.holders.contains_key(k) implies self@.sessions.contains_key(
                        self@.holders[k],
                    ) && self@.sessions[self@.holders[k]].1 == k by {
                        assert(old(self)@.holders.contains_key(k));
                    }
                }
                true
            },
            None => {
                assert(self@.sessions =~= old(self)@.sessions);
                assert(self@.holders =~= old(self)@.holders);
                false
            },
        }
    }

    /// Takes one hot-plug event. A connecting device that the capability
    /// table knows and that has no session gets one, under the identifier
    /// built on its serial number or, where another device lives under that
    /// one, under the identifier built on its stand-in. A disconnecting
    /// device has its own session cancelled. Every other event, a repeated
    /// one among them, changes nothing and asks for nothing.
    pub fn on_event(&mut self, event: DeviceLifecycleEvent) -> (action: WatchAction)
        requires
            old(self).wf(),
        ensures
            final(self).wf(),
            final(self)@ == spec_live_after(old(self)@, event),
            action@ == spec_verdict(old(self)@, event),
            action matches WatchAction::Spawn(c) ==> spawned_for(
                c,
                old(self)@,
                spec_subject(event),
            ),
            action is Ignore ==> final(self)@ == old(self)@,
    {
        match event {
            DeviceLifecycleEvent::Connected(info) => {
                let mut candidate = match device_info_to_candidate(info) {
                    Some(c) => c,
                    None => {
                        return WatchAction::Ignore;
                    },
                };
                if self.holders.contains(&candidate.dev.internal_id) {
                    return WatchAction::Ignore;
                }
                if self.sessions.contains(&candidate.id) {
                    candidate.id = fallback_id_for(
                        candidate.dev.vendor_id,
                        candidate.dev.product_id,
                        &candidate.profile.kind,
                        candidate.dev.internal_id.as_str(),
                    );
                    if self.sessions.contains(&candidate.id) {
                        return WatchAction::Ignore;
                    }
                }
                self.enrol(&candidate.id, candidate.profile, &candidate.dev.internal_id);
                WatchAction::Spawn(candidate)
            },
            DeviceLifecycleEvent::Disconnected(info) => {
                if classify(info.vendor_id, info.product_id).is_none() {
                    return WatchAction::Ignore;
                }
                let id = match self.holders.get(&info.internal_id) {
                    Some(id) => id.clone(),
                    None => {
                        return WatchAction::Ignore;
                    },
                };
                self.release(&id);
                WatchAction::Cancel(id)
            },
        }
    }

    /// Notes that the session of `id` has ended on its own, so that a later
    /// hot-plug event may start a new one. Says whether there was one.
    pub fn session_ended(&mut self, id: &String) -> (was_live: bool)
        requires
            old(self).wf(),
        ensures
            final(self).wf(),
            final(self)@ == old(self)@.without(id@),
            was_live == old(self)@.sessions.contains_key(id@),
    {
        self.release(id)
    }

    /// Ends watching: hands out the identifier of every live session, each
    /// once, for cancellation. No session is live afterwards.
    pub fn shutdown(&mut self) -> (ids: Vec<String>)
        requires
            old(self).wf(),
        ensures
            final(self).wf(),
            final(self)@ == Live::nothing(),
            forall|i: int|
                0 <= i < ids@.len() ==> old(self)@.sessions.contains_key(#[trigger] ids@[i]@),
            forall|id: Seq<char>|
                old(self)@.sessions.contains_key(id) ==> exists|i: int|
                    0 <= i < ids@.len() && #[trigger] ids@[i]@ == id,
            forall|i: int, j: int| 0 <= i < j < ids@.len() ==> ids@[i]@ != ids@[j]@,
    {
        let ids = self.sessions.ids();
        self.sessions = IdTable::new();
        self.holders = IdTable::new();
        assert(self@.sessions =~= Live::nothing().sessions);
        assert(self@.holders =~= Live::nothing().holders);
        ids
    }
}

/// A disconnect for a device without a live session changes nothing and
/// asks for nothing, however often it is delivered.
pub proof fn lemma_disconnect_without_session(live: Live, info: DeviceInfo)
    requires
        spec_held_id(live, info) is None,
    ensures
        spec_verdict(live, DeviceLifecycleEvent::Disconnected(info)) == Verdict::Ignore,
        spec_live_after(live, DeviceLifecycleEvent::Disconnected(info)) == live,
        spec_verdict(
            spec_live_after(live, DeviceLifecycleEvent::Disconnected(info)),
            DeviceLifecycleEvent::Disconnected(info),
        ) == Verdict::Ignore,
        spec_live_after(
            spec_live_after(live, DeviceLifecycleEvent::Disconnected(info)),
            DeviceLifecycleEvent::Disconnected(info),
        ) == live,
{
}

/// After a disconnect, whatever was live before, a second delivery of the
/// same event is ignored: no session is cancelled twice.
pub proof fn lemma_disconnect_twice(live: Live, info: DeviceInfo)
    requires
        live.consistent(),
    ensures
        spec_verdict(
            spec_live_after(live, DeviceLifecycleEvent::Disconnected(info)),
            DeviceLifecycleEvent::Disconnected(info),
        ) == Verdict::Ignore,
        spec_live_after(
            spec_live_after(live, DeviceLifecycleEvent::Disconnected(info)),
            DeviceLifecycleEvent::Disconnected(info),
        ) == spec_live_after(live, DeviceLifecycleEvent::Disconnected(info)),
{
}

/// A connect for a device that has just been given a session, or refused
/// one, is ignored: no device has two sessions.
pub proof fn lemma_connect_twice(live: Live, info: DeviceInfo)
    ensures
        spec_verdict(
            spec_live_after(live, DeviceLifecycleEvent::Connected(info)),
            DeviceLifecycleEvent::Connected(info),
        ) == Verdict::Ignore,
        spec_live_after(
            spec_live_after(live, DeviceLifecycleEvent::Connected(info)),
            DeviceLifecycleEvent::Connected(info),
        ) == spec_live_after(live, DeviceLifecycleEvent::Connected(info)),
{
}

/// Hot-plug events keep the table consistent: one session per identifier,
/// one identifier per device.
pub proof fn lemma_events_keep_consistency(live: Live, event: DeviceLifecycleEvent)
    requires
        live.consistent(),
    ensures
        spec_live_after(live, event).consistent(),
{
    let after = spec_live_after(live, event);
    assert forall|other: Seq<char>| #[trigger]
        after.sessions.contains_key(other) implies after.holders.contains_key(
        after.sessions[other].1,
    ) && after.holders[after.sessions[other].1] == other by {
        if live.sessions.contains_key(other) {
        }
    }
    assert forall|k: Seq<char>| #[trigger] after.holders.contains_key(k) implies after.sessions.contains_key(
    after.holders[k]) && after.sessions[after.holders[k]].1 == k by {
        if live.holders.contains_key(k) {
        }
    }
}

/// A device keeps its identifier over a reconnect: when it disconnects and
/// connects again with nothing in between, it is assigned the identifier it
/// held before, be it the one built on its serial number or, while another
/// device still lives under that one, the one built on its stand-in.
pub proof fn lemma_reconnect_keeps_identifier(live: Live, info: DeviceInfo)
    requires
        live.consistent(),
        spec_held_id(live, info) is Some,
        spec_held_id(live, info) == spec_id_of(info) || (spec_held_id(live, info)
            == spec_spare_id_of(info) && live.sessions.contains_key(spec_id_of(info).unwrap())),
    ensures
        spec_assigned_id(spec_live_after(live, DeviceLifecycleEvent::Disconnected(info)), info)
            == spec_held_id(live, info),
{
}

} // verus!
