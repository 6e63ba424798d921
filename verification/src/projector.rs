//! The workspace projector: turns raw workspace events into domain updates
//! and broadcasts them to every subscriber. Each call to subscribe creates a
//! fresh receive end whose first message is an `Init` snapshot of the full
//! current state, then registers one listener for workspace events; from
//! then on every raw workspace event is fanned out as one identical update
//! to every receive end.

use vstd::prelude::*;

use crate::channel::{push_bounded, Channel, CHANNEL_CAPACITY};
use crate::sway::{
    event_kind_of, matching_ids, valid_restart_actions, Action, Client, EventKind, ListenerEntry,
    RawEvent,
};
use crate::workspace::{update_of_event, Workspace, WorkspaceUpdate};

verus! {

/// The projector: the window-manager client whose registry it feeds, and one
/// receive end per subscriber. The listener handle of subscriber `i` is `i`:
/// the dispatcher hands each matching event to the callback that forwards it
/// to receive end `i`.
pub struct WorkspaceProjector {
    client: Client,
    channels: Vec<Channel<WorkspaceUpdate>>,
}

impl WorkspaceProjector {
    /// The window-manager client.
    pub closed spec fn spec_client(&self) -> Client {
        self.client
    }

    /// The receive ends, one per subscriber in subscription order.
    pub closed spec fn spec_channels(&self) -> Seq<Channel<WorkspaceUpdate>> {
        self.channels@
    }

    /// Every registry entry filters for workspace events and forwards to the
    /// receive end of the subscriber that registered it.
    pub open spec fn wf(&self) -> bool {
        &&& self.spec_client().wf()
        &&& self.spec_client().spec_entries().len() == self.spec_channels().len()
        &&& forall|i: int|
            0 <= i < self.spec_channels().len() ==> #[trigger] self.spec_client().spec_entries()[i]
                == (ListenerEntry { kind: EventKind::Workspace, listener: i as usize })
        &&& forall|i: int|
            0 <= i < self.spec_channels().len() ==> (#[trigger] self.spec_channels()[i]).wf()
    }

    /// A fresh projector with no subscribers and no dispatcher running.
    pub fn new() -> (p: WorkspaceProjector)
        ensures
            p.wf(),
            p.spec_channels().len() == 0,
            p.spec_client().spec_status() == crate::sway::TaskStatus::Idle,
            p.spec_client().spec_next_generation() == 0,
    {
        WorkspaceProjector { client: Client::new(), channels: Vec::new() }
    }

    /// How many subscribers hold a receive end.
    pub fn num_subscribers(&self) -> (n: usize)
        ensures
            n == self.spec_channels().len(),
    {
        self.channels.len()
    }

    /// Subscribes one caller: creates a fresh receive end whose first and
    /// only message is an `Init` carrying the snapshot the caller fetched at
    /// subscription time, and registers a workspace listener for it. The
    /// returned actions settle the registration (cancel the old dispatcher,
    /// open and subscribe a fresh connection, spawn the new dispatcher);
    /// receive ends of earlier subscribers are untouched.
    pub fn subscribe_workspace_change(&mut self, snapshot: Vec<Workspace>) -> (r: (
        usize,
        Vec<Action>,
    ))
        requires
            old(self).wf(),
            old(self).spec_client().spec_next_generation() < u64::MAX,
        ensures
            final(self).wf(),
            r.0 == old(self).spec_channels().len(),
            final(self).spec_channels().len() == old(self).spec_channels().len() + 1,
            final(self).spec_channels()[r.0 as int].queue() == seq![
                WorkspaceUpdate::Init(snapshot),
            ],
            forall|i: int|
                0 <= i < old(self).spec_channels().len() ==> final(self).spec_channels()[i] == old(self).spec_channels()[i],
            final(self).spec_client().spec_entries() == old(self).spec_client().spec_entries().push(
                ListenerEntry { kind: EventKind::Workspace, listener: r.0 },
            ),
            valid_restart_actions(
                old(self).spec_client().spec_status(),
                final(self).spec_client().spec_entries(),
                old(self).spec_client().spec_next_generation(),
                r.1@,
            ),
    {
        let sub = self.channels.len();
        let mut channel = Channel::<WorkspaceUpdate>::new();
        channel.send(WorkspaceUpdate::Init(snapshot));
        proof {
            assert(channel.queue() =~= seq![WorkspaceUpdate::Init(snapshot)]);
        }
        self.channels.push(channel);
        let actions = self.client.add_listener_type(EventKind::Workspace, sub);
        (sub, actions)
    }

    /// The dispatcher body for one raw event: classify it, and hand one
    /// identical copy of the projected update, in registration order, to the
    /// callback of every listener whose kind matches — here, one per
    /// subscriber for a workspace event, and none for any other kind.
    pub fn handle_event(&mut self, e: &RawEvent)
        requires
            old(self).wf(),
            *e matches RawEvent::Workspace(we) ==> we.wf(),
        ensures
            final(self).wf(),
            final(self).spec_client() == old(self).spec_client(),
            final(self).spec_channels().len() == old(self).spec_channels().len(),
            *e matches RawEvent::Workspace(we) ==> forall|i: int|
                0 <= i < old(self).spec_channels().len() ==> (#[trigger] final(self).spec_channels()[i]).queue() == push_bounded(
                    old(self).spec_channels()[i].queue(),
                    update_of_event(we),
                    CHANNEL_CAPACITY as nat,
                ),
            !(*e is Workspace) ==> *final(self) == *old(self),
    {
        let kind = event_kind_of(e);
        match e {
            RawEvent::Workspace(we) => {
                let update = WorkspaceUpdate::from_event(we.duplicate());
                proof {
                    assert(!(update is Init));
                    lemma_matching_ids_identity(
                        self.spec_client().spec_entries(),
                        EventKind::Workspace,
                    );
                }
                let targets = self.client.dispatch_targets(kind);
                let n = targets.len();
                for t in 0..n
                    invariant
                        self.wf(),
                        n == targets@.len(),
                        targets@ == Seq::new(
                            old(self).spec_channels().len(),
                            |i: int| i as usize,
                        ),
                        self.spec_client() == old(self).spec_client(),
                        self.spec_channels().len() == old(self).spec_channels().len(),
                        update == update_of_event(*we),
                        !(update is Init),
                        forall|i: int|
                            0 <= i < t ==> (#[trigger] self.spec_channels()[i]).queue()
                                == push_bounded(
                                old(self).spec_channels()[i].queue(),
                                update_of_event(*we),
                                CHANNEL_CAPACITY as nat,
                            ),
                        forall|i: int|
                            t <= i < self.spec_channels().len() ==> #[trigger] self.spec_channels()[i]
                                == old(self).spec_channels()[i],
                {
                    let id = targets[t];
                    let copy = update.duplicate();
                    self.channels[id].send(copy);
                }
            },
            _ => {},
        }
    }

    /// Takes the oldest undelivered update of one subscriber, if any.
    pub fn recv(&mut self, sub: usize) -> (r: Option<WorkspaceUpdate>)
        requires
            old(self).wf(),
            sub < old(self).spec_channels().len(),
        ensures
            final(self).wf(),
            final(self).spec_client() == old(self).spec_client(),
            final(self).spec_channels().len() == old(self).spec_channels().len(),
            forall|i: int|
                0 <= i < old(self).spec_channels().len() && i != sub ==> final(self).spec_channels()[i] == old(self).spec_channels()[i],
            old(self).spec_channels()[sub as int].queue().len() == 0 ==> r is None && final(self).spec_channels()[sub as int] == old(self).spec_channels()[sub as int],
            old(self).spec_channels()[sub as int].queue().len() > 0 ==> r == Some(
                old(self).spec_channels()[sub as int].queue().first(),
            ) && final(self).spec_channels()[sub as int].queue() == old(self).spec_channels()[
                sub as int
            ].queue().drop_first(),
    {
        self.channels[sub].recv()
    }
}

/// When every registry entry filters for `kind` and forwards to the receive
/// end matching its position, the dispatch targets are exactly all
/// subscribers, in subscription order.
proof fn lemma_matching_ids_identity(entries: Seq<ListenerEntry>, kind: EventKind)
    requires
        forall|i: int|
            0 <= i < entries.len() ==> #[trigger] entries[i] == (ListenerEntry {
                kind,
                listener: i as usize,
            }),
    ensures
        matching_ids(entries, kind) =~= Seq::new(entries.len(), |i: int| i as usize),
    decreases entries.len(),
{
    if entries.len() > 0 {
        assert(forall|j: int|
            0 <= j < entries.len() - 1 ==> entries.drop_last()[j] == entries[j]);
        lemma_matching_ids_identity(entries.drop_last(), kind);
    }
}

} // verus!
