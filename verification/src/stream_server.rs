//! The broker: the registry of viewers and the fan-out of frames to them.
//!
//! The broker decides; it does not send. A viewer's outbound channel is known
//! to it by a handle, a number that the connection layer picks for the
//! channel. Before each operation the connection layer says which handles it
//! found closed; the operation prunes their subscribers and, for a frame,
//! answers with the deliveries to make.

use vstd::prelude::*;
use vstd::slice::slice_to_vec;
use vstd::std_specs::hash::{spec_hash_map_iter, spec_keys_iter};
use vstd::std_specs::iter::IteratorSpec;
use std::collections::HashMap;

verus! {

broadcast use vstd::std_specs::hash::group_hash_axioms;

/// A frame ready for broadcast: the producer's identifier and the image.
#[derive(Debug, Clone, PartialEq, Eq)]
pub struct ImageReadyEvent(pub u64, pub Vec<u8>);

/// A viewer asks for frames: its identifier and the handle of its channel.
#[derive(Debug, Clone, Copy, PartialEq, Eq, Structural)]
pub struct AddMonitorClientEvent(pub u64, pub u64);

/// A connection has ended.
#[derive(Debug, Clone, Copy, PartialEq, Eq, Structural)]
pub struct VideoSessionEndedEvent();

/// One entry of the registry: a viewer and the handle of its channel.
#[derive(Debug, Clone, Copy, PartialEq, Eq, Structural)]
pub struct Subscriber {
    pub id: u64,
    pub sink: u64,
}

/// One send that the connection layer is to attempt.
#[derive(Debug, Clone, PartialEq, Eq)]
pub struct Delivery {
    pub to: Subscriber,
    pub frame: ImageReadyEvent,
}

/// The registry of viewers. Its view maps each registered viewer to the
/// handle of its channel.
#[derive(Debug, Clone)]
pub struct StreamServer {
    connected_monitor_clients: HashMap<u64, u64>,
}

impl View for ImageReadyEvent {
    type V = (u64, Seq<u8>);

    open spec fn view(&self) -> (u64, Seq<u8>) {
        (self.0, self.1@)
    }
}

impl View for StreamServer {
    type V = Map<u64, u64>;

    closed spec fn view(&self) -> Map<u64, u64> {
        self.connected_monitor_clients@
    }
}

/// What is left of `registry` once every subscriber whose channel is among
/// `dead` has been pruned.
pub open spec fn surviving(registry: Map<u64, u64>, dead: Set<u64>) -> Map<u64, u64> {
    Map::new(
        |id: u64| registry.contains_key(id) && !dead.contains(registry[id]),
        |id: u64| registry[id],
    )
}

/// Some entry of `subscribers` is the viewer `id`.
pub open spec fn lists_viewer(subscribers: Seq<Subscriber>, id: u64) -> bool {
    exists|k: int| 0 <= k < subscribers.len() && (#[trigger] subscribers[k]).id == id
}

/// `subscribers` lists the entries of `registry`: each viewer once, with the
/// channel it is registered with, and nobody else.
pub open spec fn lists_registry(subscribers: Seq<Subscriber>, registry: Map<u64, u64>) -> bool {
    &&& forall|k: int|
        0 <= k < subscribers.len() ==> {
            let subscriber = #[trigger] subscribers[k];
            &&& registry.contains_key(subscriber.id)
            &&& registry[subscriber.id] == subscriber.sink
        }
    &&& forall|k: int, l: int|
        0 <= k < l < subscribers.len() ==> (#[trigger] subscribers[k]).id != (
        #[trigger] subscribers[l]).id
    &&& forall|id: u64| #[trigger] registry.contains_key(id) ==> lists_viewer(subscribers, id)
}

/// The subscribers that `deliveries` go to, in the same order.
pub open spec fn recipients(deliveries: Seq<Delivery>) -> Seq<Subscriber> {
    Seq::new(deliveries.len(), |k: int| deliveries[k].to)
}

/// `deliveries` hand `frame` to every subscriber of `registry` exactly once,
/// through the channel it is registered with, and to nobody else.
pub open spec fn fan_out(deliveries: Seq<Delivery>, registry: Map<u64, u64>, frame: (u64, Seq<u8>))
    -> bool {
    &&& lists_registry(recipients(deliveries), registry)
    &&& forall|k: int| 0 <= k < deliveries.len() ==> (#[trigger] deliveries[k]).frame@ == frame
}

/// A registry that has lost exactly the viewers whose channel is listed in
/// `dead` is what survives of it.
proof fn lemma_pruned_is_surviving(
    before: Map<u64, u64>,
    after: Map<u64, u64>,
    dead: Seq<u64>,
    removal: Seq<u64>,
)
    requires
        forall|id: u64| removal.contains(id) <==> before.contains_key(id) && dead.contains(before[id]),
        forall|id: u64| after.contains_key(id) <==> before.contains_key(id) && !removal.contains(id),
        forall|id: u64| after.contains_key(id) ==> after[id] == before[id],
    ensures
        after == surviving(before, dead.to_set()),
{
    let kept = surviving(before, dead.to_set());
    assert forall|id: u64| after.contains_key(id) <==> kept.contains_key(id) by {
        let sink = before[id];
        assert(dead.to_set().contains(sink) <==> dead.contains(sink));
        assert(kept.contains_key(id) <==> before.contains_key(id) && !dead.to_set().contains(sink));
        assert(removal.contains(id) <==> before.contains_key(id) && dead.contains(sink));
        assert(after.contains_key(id) <==> before.contains_key(id) && !removal.contains(id));
    }
    assert(after.dom() =~= kept.dom());
    assert(after =~= kept);
}

/// Tells whether `handle` is among `handles`.
fn is_listed(handles: &[u64], handle: u64) -> (listed: bool)
    ensures
        listed == handles@.contains(handle),
{
    let mut i: usize = 0;
    while i < handles.len()
        invariant
            i <= handles.len(),
            forall|j: int| 0 <= j < i ==> handles@[j] != handle,
        decreases handles.len() - i,
    {
        if handles[i] == handle {
            return true;
        }
        i += 1;
    }
    false
}

impl StreamServer {
    /// A broker with nobody registered.
    pub fn new() -> (server: Self)
        ensures
            server@ == Map::<u64, u64>::empty(),
    {
        Self { connected_monitor_clients: HashMap::new() }
    }

    /// Registers the viewer `msg.0` with the channel `msg.1`. A viewer that
    /// is registered already is from now on reached through the new channel.
    pub fn register(&mut self, msg: AddMonitorClientEvent)
        ensures
            final(self)@ == old(self)@.insert(msg.0, msg.1),
    {
        self.connected_monitor_clients.insert(msg.0, msg.1);
    }

    /// The registry never holds more than finitely many viewers.
    pub proof fn lemma_registry_is_finite(&self)
        ensures
            self@.dom().finite(),
    {
    }

    /// The number of registered viewers.
    pub fn len(&self) -> (count: usize)
        ensures
            count == self@.len(),
    {
        self.connected_monitor_clients.len()
    }

    /// The handle of the channel that the viewer `id` is registered with.
    pub fn sink_of(&self, id: u64) -> (sink: Option<u64>)
        ensures
            sink == if self@.contains_key(id) {
                Some(self@[id])
            } else {
                None
            },
    {
        match self.connected_monitor_clients.get(&id) {
            Some(sink) => Some(*sink),
            None => None,
        }
    }

    /// The registered viewers, each once, in no particular order.
    pub fn subscriber_ids(&self) -> (ids: Vec<u64>)
        ensures
            ids@.no_duplicates(),
            ids@.to_set() == self@.dom(),
    {
        let mut ids: Vec<u64> = Vec::new();
        let ghost all = spec_keys_iter(&self.connected_monitor_clients).remaining();
        for id in it: self.connected_monitor_clients.keys()
            invariant
                it.seq() == all,
                ids@.len() == it.index(),
                forall|i: int| 0 <= i < ids@.len() ==> ids@[i] == *all[i],
        {
            ids.push(*id);
        }
        assert(ids@ =~= all.unref());
        ids
    }

    /// The registry as a list: each viewer once, with the handle of its
    /// channel, in no particular order. The connection layer goes through it
    /// to find the channels that have closed.
    pub fn subscribers(&self) -> (listed: Vec<Subscriber>)
        ensures
            lists_registry(listed@, self@),
    {
        let mut listed: Vec<Subscriber> = Vec::new();
        let ghost all = spec_hash_map_iter(&self.connected_monitor_clients).remaining();
        for entry in it: self.connected_monitor_clients.iter()
            invariant
                it.seq() == all,
                listed@.len() == it.index(),
                forall|k: int|
                    0 <= k < listed@.len() ==> (#[trigger] listed@[k]).id == *all[k].0
                        && listed@[k].sink == *all[k].1,
        {
            listed.push(Subscriber { id: *entry.0, sink: *entry.1 });
        }
        proof {
            assert(all.no_duplicates());
            assert forall|k: int, l: int| 0 <= k < l < listed@.len() implies (
            #[trigger] listed@[k]).id != (#[trigger] listed@[l]).id by {
                if listed@[k].id == listed@[l].id {
                    assert(self@.contains_key(*all[k].0) && self@[*all[k].0] == *all[k].1);
                    assert(self@.contains_key(*all[l].0) && self@[*all[l].0] == *all[l].1);
                    assert(all[k] == all[l]);
                }
            }
            assert forall|id: u64| #[trigger] self@.contains_key(id) implies lists_viewer(
                listed@,
                id,
            ) by {
                assert(all.contains((&id, &self@[id])));
                let k = choose|k: int| 0 <= k < all.len() && all[k] == (&id, &self@[id]);
                assert(listed@[k].id == id);
            }
        }
        listed
    }

    /// Goes once through the registry and parts it by what `dead` says: the
    /// subscribers to keep, and the viewers to prune because their channel
    /// is among `dead`.
    fn sweep(&self, dead: &[u64]) -> (parted: (Vec<Subscriber>, Vec<u64>))
        ensures
            lists_registry(parted.0@, surviving(self@, dead@.to_set())),
            forall|id: u64|
                parted.1@.contains(id) <==> self@.contains_key(id) && dead@.contains(self@[id]),
    {
        let all = self.subscribers();
        let mut live: Vec<Subscriber> = Vec::new();
        let mut removal: Vec<u64> = Vec::new();
        let ghost source: Seq<int> = Seq::empty();
        let mut i: usize = 0;
        while i < all.len()
            invariant
                i <= all.len(),
                lists_registry(all@, self@),
                source.len() == live@.len(),
                forall|k: int| 0 <= k < source.len() ==> 0 <= #[trigger] source[k] < i,
                forall|k: int, l: int|
                    0 <= k < l < source.len() ==> #[trigger] source[k] < #[trigger] source[l],
                forall|k: int|
                    0 <= k < live@.len() ==> #[trigger] live@[k] == all@[source[k]]
                        && !dead@.contains(live@[k].sink),
                forall|j: int|
                    0 <= j < i && !dead@.contains((#[trigger] all@[j]).sink) ==> lists_viewer(
                        live@,
                        all@[j].id,
                    ),
                forall|k: int|
                    0 <= k < removal@.len() ==> self@.contains_key(#[trigger] removal@[k])
                        && dead@.contains(self@[removal@[k]]),
                forall|j: int|
                    0 <= j < i && dead@.contains((#[trigger] all@[j]).sink) ==> removal@.contains(
                        all@[j].id,
                    ),
            decreases all.len() - i,
        {
            let subscriber: Subscriber = all[i];
            let ghost live_before = live@;
            let ghost removal_before = removal@;
            if is_listed(dead, subscriber.sink) {
                removal.push(subscriber.id);
                proof {
                    assert(removal@[removal_before.len() as int] == subscriber.id);
                    assert forall|j: int|
                        0 <= j < i + 1 && dead@.contains(
                            (#[trigger] all@[j]).sink,
                        ) implies removal@.contains(all@[j].id) by {
                        if j < i {
                            let at = choose|at: int|
                                0 <= at < removal_before.len() && removal_before[at] == all@[j].id;
                            assert(removal@[at] == all@[j].id);
                        }
                    }
                }
            } else {
                live.push(subscriber);
                proof {
                    source = source.push(i as int);
                    assert(live@[live_before.len() as int].id == subscriber.id);
                    assert forall|j: int|
                        0 <= j < i + 1 && !dead@.contains(
                            (#[trigger] all@[j]).sink,
                        ) implies lists_viewer(live@, all@[j].id) by {
                        if j < i {
                            let at = choose|at: int|
                                0 <= at < live_before.len() && (#[trigger] live_before[at]).id
                                    == all@[j].id;
                            assert(live@[at].id == all@[j].id);
                        }
                    }
                }
            }
            i += 1;
        }
        proof {
            let kept = surviving(self@, dead@.to_set());
            assert forall|id: u64| #[trigger] kept.contains_key(id) implies lists_viewer(
                live@,
                id,
            ) by {
                assert(lists_viewer(all@, id));
                let j = choose|j: int| 0 <= j < all@.len() && (#[trigger] all@[j]).id == id;
                assert(!dead@.contains(all@[j].sink));
            }
            assert forall|k: int, l: int| 0 <= k < l < live@.len() implies (#[trigger] live@[k]).id
                != (#[trigger] live@[l]).id by {
                assert(all@[source[k]].id != all@[source[l]].id);
            }
            assert forall|id: u64| self@.contains_key(id) && dead@.contains(
                self@[id],
            ) implies removal@.contains(id) by {
                assert(lists_viewer(all@, id));
                let j = choose|j: int| 0 <= j < all@.len() && (#[trigger] all@[j]).id == id;
                assert(dead@.contains(all@[j].sink));
            }
        }
        (live, removal)
    }

    /// Takes the viewers `removal` out of the registry.
    fn prune(&mut self, removal: &Vec<u64>)
        ensures
            forall|id: u64|
                final(self)@.contains_key(id) <==> old(self)@.contains_key(id)
                    && !removal@.contains(id),
            forall|id: u64| final(self)@.contains_key(id) ==> final(self)@[id] == old(self)@[id],
    {
        let mut i: usize = 0;
        while i < removal.len()
            invariant
                i <= removal.len(),
                forall|id: u64|
                    self@.contains_key(id) <==> old(self)@.contains_key(id) && !removal@.take(
                        i as int,
                    ).contains(id),
                forall|id: u64| self@.contains_key(id) ==> self@[id] == old(self)@[id],
            decreases removal.len() - i,
        {
            let id: u64 = removal[i];
            let ghost before = self@;
            self.connected_monitor_clients.remove(&id);
            proof {
                assert(self@ == before.remove(id));
                let seen = removal@.take(i as int);
                let grown = removal@.take(i + 1);
                assert(grown =~= seen.push(id));
                assert forall|other: u64| grown.contains(other) <==> seen.contains(other) || other
                    == id by {
                    if seen.contains(other) {
                        let at = choose|at: int| 0 <= at < seen.len() && seen[at] == other;
                        assert(grown[at] == other);
                    }
                    if other == id {
                        assert(grown[i as int] == other);
                    }
                }
            }
            i += 1;
        }
        assert(removal@.take(i as int) =~= removal@);
    }

    /// A connection has ended: prunes every subscriber whose channel is
    /// among `dead`, the handles that the connection layer found closed.
    pub fn connection_ended(&mut self, _msg: VideoSessionEndedEvent, dead: &[u64])
        ensures
            final(self)@ == surviving(old(self)@, dead@.to_set()),
    {
        let parted = self.sweep(dead);
        self.prune(&parted.1);
        proof {
            lemma_pruned_is_surviving(old(self)@, self@, dead@, parted.1@);
        }
    }

    /// Broadcasts the frame `msg`. Every subscriber whose channel is among
    /// `dead`, the handles that the connection layer found closed, is pruned;
    /// every other subscriber gets the frame once. The deliveries come back
    /// for the connection layer to attempt, in no particular order; a send
    /// that fails there changes nothing here.
    pub fn publish(&mut self, msg: ImageReadyEvent, dead: &[u64]) -> (deliveries: Vec<Delivery>)
        ensures
            final(self)@ == surviving(old(self)@, dead@.to_set()),
            fan_out(deliveries@, final(self)@, msg@),
    {
        let parted = self.sweep(dead);
        let live = parted.0;
        let mut deliveries: Vec<Delivery> = Vec::new();
        let mut i: usize = 0;
        while i < live.len()
            invariant
                i <= live.len(),
                deliveries@.len() == i,
                forall|k: int|
                    0 <= k < i ==> (#[trigger] deliveries@[k]).to == live@[k] && deliveries@[k].frame@
                        == msg@,
            decreases live.len() - i,
        {
            let frame = ImageReadyEvent(msg.0, slice_to_vec(msg.1.as_slice()));
            deliveries.push(Delivery { to: live[i], frame });
            i += 1;
        }
        self.prune(&parted.1);
        proof {
            lemma_pruned_is_surviving(old(self)@, self@, dead@, parted.1@);
        }
        assert(recipients(deliveries@) =~= live@);
        deliveries
    }
}

/// Registering a viewer twice is the same as registering it the second
/// time only: the later channel replaces the earlier one.
pub proof fn lemma_later_registration_wins(
    registry: Map<u64, u64>,
    id: u64,
    earlier: u64,
    later: u64,
)
    ensures
        registry.insert(id, earlier).insert(id, later) == registry.insert(id, later),
{
    assert(registry.insert(id, earlier).insert(id, later) =~= registry.insert(id, later));
}

/// Where no channel has closed, every subscriber survives.
pub proof fn lemma_nothing_dead_keeps_all(registry: Map<u64, u64>)
    ensures
        surviving(registry, Set::<u64>::empty()) == registry,
{
    assert(surviving(registry, Set::<u64>::empty()) =~= registry);
}

/// What survives of a registry are its subscribers whose channel is alive,
/// each with the channel it had.
pub proof fn lemma_surviving_are_the_live(registry: Map<u64, u64>, dead: Set<u64>, id: u64)
    ensures
        surviving(registry, dead).contains_key(id) <==> registry.contains_key(id) && !dead.contains(
            registry[id],
        ),
        surviving(registry, dead).contains_key(id) ==> surviving(registry, dead)[id]
            == registry[id],
{
}

/// A fan-out reaches the registered viewers and nobody else: a viewer is
/// among the recipients if and only if it is registered.
pub proof fn lemma_fan_out_reaches_the_registered(
    deliveries: Seq<Delivery>,
    registry: Map<u64, u64>,
    frame: (u64, Seq<u8>),
    id: u64,
)
    requires
        fan_out(deliveries, registry, frame),
    ensures
        lists_viewer(recipients(deliveries), id) <==> registry.contains_key(id),
{
    if lists_viewer(recipients(deliveries), id) {
        let k = choose|k: int|
            0 <= k < recipients(deliveries).len() && (#[trigger] recipients(deliveries)[k]).id
                == id;
        assert(registry.contains_key(recipients(deliveries)[k].id));
    }
}

/// A fan-out makes as many deliveries as there are registered viewers.
pub proof fn lemma_fan_out_count(
    deliveries: Seq<Delivery>,
    registry: Map<u64, u64>,
    frame: (u64, Seq<u8>),
)
    requires
        fan_out(deliveries, registry, frame),
        registry.dom().finite(),
    ensures
        deliveries.len() == registry.len(),
{
    let to = recipients(deliveries);
    let ids = Seq::new(to.len(), |k: int| to[k].id);
    assert(ids.no_duplicates()) by {
        assert forall|k: int, l: int| 0 <= k < ids.len() && 0 <= l < ids.len() && k != l implies ids[k]
            != ids[l] by {
            if k < l {
                assert(to[k].id != to[l].id);
            } else {
                assert(to[l].id != to[k].id);
            }
        }
    }
    assert(ids.to_set() =~= registry.dom()) by {
        assert forall|id: u64| ids.to_set().contains(id) <==> registry.dom().contains(id) by {
            if ids.to_set().contains(id) {
                let k = choose|k: int| 0 <= k < ids.len() && ids[k] == id;
                assert(registry.contains_key(to[k].id));
            }
            if registry.contains_key(id) {
                assert(lists_viewer(to, id));
                let k = choose|k: int| 0 <= k < to.len() && (#[trigger] to[k]).id == id;
                assert(ids[k] == id);
            }
        }
    }
    ids.unique_seq_to_set();
}

/// A viewer whose channel has closed gets nothing from the broadcast that
/// finds it closed, and is no longer registered after it.
pub proof fn lemma_dead_viewer_gets_nothing(
    registry: Map<u64, u64>,
    dead: Set<u64>,
    deliveries: Seq<Delivery>,
    frame: (u64, Seq<u8>),
    id: u64,
)
    requires
        fan_out(deliveries, surviving(registry, dead), frame),
        registry.contains_key(id),
        dead.contains(registry[id]),
    ensures
        !surviving(registry, dead).contains_key(id),
        !lists_viewer(recipients(deliveries), id),
{
    lemma_fan_out_reaches_the_registered(deliveries, surviving(registry, dead), frame, id);
}

} // verus!
