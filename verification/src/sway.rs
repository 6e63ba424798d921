//! The window-manager IPC client: an ordered registry of (event kind,
//! listener) pairs, and the controller that owns the single background
//! dispatcher task reading the connection.
//!
//! Registering a listener appends to the registry and replaces the running
//! dispatcher, because the transport binds the subscribed kind set to a
//! connection at subscribe time and cannot widen it mid-stream. The
//! controller hands back the ordered list of actions the surrounding process
//! must execute: cancel the old task and await its termination, open a fresh
//! connection, subscribe it to the full kind set, and spawn the new
//! dispatcher. Executing them in order keeps at most one dispatcher live at
//! every point.

use vstd::prelude::*;

use crate::workspace::WorkspaceEvent;

verus! {

/// The classes of raw events the transport can deliver, used as filter keys
/// for listeners.
#[derive(Clone, Copy, Debug, PartialEq, Eq, Structural)]
pub enum EventKind {
    Workspace,
    Mode,
    Window,
    BarConfigUpdate,
    Binding,
    Shutdown,
    Tick,
    BarStateUpdate,
    Input,
}

/// A raw binding-mode event: the mode that became active and whether its
/// name is markup.
#[derive(Clone, Debug)]
pub struct RawModeEvent {
    pub change: String,
    pub pango_markup: bool,
}

/// One raw event off the connection. The bridge reads payloads only for the
/// workspace and mode kinds; the other kinds carry none here and are
/// classified by tag alone.
#[derive(Clone, Debug)]
pub enum RawEvent {
    Workspace(WorkspaceEvent),
    Mode(RawModeEvent),
    Window,
    BarConfigUpdate,
    Binding,
    Shutdown,
    Tick,
    BarStateUpdate,
    Input,
}

/// The kind tag of a raw event.
pub open spec fn spec_event_kind(e: RawEvent) -> EventKind {
    match e {
        RawEvent::Workspace(_) => EventKind::Workspace,
        RawEvent::Mode(_) => EventKind::Mode,
        RawEvent::Window => EventKind::Window,
        RawEvent::BarConfigUpdate => EventKind::BarConfigUpdate,
        RawEvent::Binding => EventKind::Binding,
        RawEvent::Shutdown => EventKind::Shutdown,
        RawEvent::Tick => EventKind::Tick,
        RawEvent::BarStateUpdate => EventKind::BarStateUpdate,
        RawEvent::Input => EventKind::Input,
    }
}

/// Classifies a raw event by its kind, for filtering against the registry.
pub fn event_kind_of(e: &RawEvent) -> (k: EventKind)
    ensures
        k == spec_event_kind(*e),
{
    match e {
        RawEvent::Workspace(_) => EventKind::Workspace,
        RawEvent::Mode(_) => EventKind::Mode,
        RawEvent::Window => EventKind::Window,
        RawEvent::BarConfigUpdate => EventKind::BarConfigUpdate,
        RawEvent::Binding => EventKind::Binding,
        RawEvent::Shutdown => EventKind::Shutdown,
        RawEvent::Tick => EventKind::Tick,
        RawEvent::BarStateUpdate => EventKind::BarStateUpdate,
        RawEvent::Input => EventKind::Input,
    }
}

/// One registry entry: the kind it filters for and the handle of the
/// callback to invoke. The surrounding process maps handles to the actual
/// callbacks; entries are only ever appended.
#[derive(Clone, Copy, Debug, PartialEq, Eq, Structural)]
pub struct ListenerEntry {
    pub kind: EventKind,
    pub listener: usize,
}

/// Whether a dispatcher task is currently running, and which one.
/// Generations number the dispatcher tasks ever spawned, so that a
/// cancellation names exactly the task it ends.
#[derive(Clone, Copy, Debug, PartialEq, Eq, Structural)]
pub enum TaskStatus {
    Idle,
    Running { generation: u64 },
}

/// One step the surrounding process must execute, in order, to settle a
/// registration.
#[derive(Clone, Debug)]
pub enum Action {
    /// Cancel the named dispatcher task and await its termination.
    CancelTask { generation: u64 },
    /// Open a brand-new connection to the source.
    OpenConnection,
    /// Issue one subscribe call on the new connection for this full kind
    /// list.
    Subscribe { kinds: Vec<EventKind> },
    /// Spawn the named dispatcher task on the new connection.
    SpawnDispatcher { generation: u64 },
}

/// The kinds of all registry entries, in registration order, one per entry
/// (duplicates included: the subscribe call receives the list as the
/// registry holds it).
pub open spec fn kinds_of(entries: Seq<ListenerEntry>) -> Seq<EventKind> {
    entries.map_values(|e: ListenerEntry| e.kind)
}

/// The registry positions whose entries filter for `kind`, in registration
/// order.
pub open spec fn matching_indices(entries: Seq<ListenerEntry>, kind: EventKind) -> Seq<int>
    decreases entries.len(),
{
    if entries.len() == 0 {
        Seq::empty()
    } else {
        let rest = matching_indices(entries.drop_last(), kind);
        if entries.last().kind == kind {
            rest.push(entries.len() - 1)
        } else {
            rest
        }
    }
}

/// The listener handles registered for `kind`, in registration order.
pub open spec fn matching_ids(entries: Seq<ListenerEntry>, kind: EventKind) -> Seq<usize>
    decreases entries.len(),
{
    if entries.len() == 0 {
        Seq::empty()
    } else {
        let rest = matching_ids(entries.drop_last(), kind);
        if entries.last().kind == kind {
            rest.push(entries.last().listener)
        } else {
            rest
        }
    }
}

/// The dispatcher generations live before any action runs.
pub open spec fn initial_live(status: TaskStatus) -> Set<u64> {
    match status {
        TaskStatus::Idle => Set::empty(),
        TaskStatus::Running { generation } => Set::empty().insert(generation),
    }
}

/// How one executed action changes the set of live dispatcher tasks: a
/// cancellation is awaited to completion, so its task is no longer live once
/// the action is done; a spawn makes its task live; the connection actions
/// touch no task.
pub open spec fn apply_action(live: Set<u64>, a: Action) -> Set<u64> {
    match a {
        Action::CancelTask { generation } => live.remove(generation),
        Action::SpawnDispatcher { generation } => live.insert(generation),
        _ => live,
    }
}

/// The live dispatcher tasks after executing `actions` in order, starting
/// from `live`.
pub open spec fn live_after(live: Set<u64>, actions: Seq<Action>) -> Set<u64>
    decreases actions.len(),
{
    if actions.len() == 0 {
        live
    } else {
        live_after(apply_action(live, actions[0]), actions.drop_first())
    }
}

/// What a settled registration hands the surrounding process: cancel the old
/// task first if one runs, then open a connection, subscribe it to the full
/// kind list of the registry as it now stands, and spawn the new task.
pub open spec fn valid_restart_actions(
    prev: TaskStatus,
    entries: Seq<ListenerEntry>,
    generation: u64,
    actions: Seq<Action>,
) -> bool {
    let n: int = if prev is Running {
        1
    } else {
        0
    };
    &&& actions.len() == n + 3
    &&& (prev matches TaskStatus::Running { generation: g } ==> actions[0] == (
    Action::CancelTask { generation: g }))
    &&& actions[n] == Action::OpenConnection
    &&& (actions[n + 1] matches Action::Subscribe { kinds } && kinds@ == kinds_of(entries))
    &&& actions[n + 2] == (Action::SpawnDispatcher { generation })
}

/// The window-manager client: the listener registry and the dispatcher task
/// state, mutated together under one exclusive scope.
pub struct Client {
    entries: Vec<ListenerEntry>,
    status: TaskStatus,
    next_generation: u64,
}

impl Client {
    /// The registry, in registration order.
    pub closed spec fn spec_entries(&self) -> Seq<ListenerEntry> {
        self.entries@
    }

    /// The dispatcher task state.
    pub closed spec fn spec_status(&self) -> TaskStatus {
        self.status
    }

    /// The generation the next spawned dispatcher will carry.
    pub closed spec fn spec_next_generation(&self) -> u64 {
        self.next_generation
    }

    /// A running dispatcher always carries a generation older than the next
    /// one to be handed out, so no two spawned tasks share a generation.
    pub open spec fn wf(&self) -> bool {
        self.spec_status() matches TaskStatus::Running { generation } ==> generation
            < self.spec_next_generation()
    }

    /// A fresh client: empty registry, no dispatcher running.
    pub fn new() -> (c: Client)
        ensures
            c.wf(),
            c.spec_entries() == Seq::<ListenerEntry>::empty(),
            c.spec_status() == TaskStatus::Idle,
            c.spec_next_generation() == 0,
    {
        Client { entries: Vec::new(), status: TaskStatus::Idle, next_generation: 0 }
    }

    /// The full kind list of the registry, in registration order: what the
    /// one subscribe call on a fresh connection receives.
    pub fn subscription_kinds(&self) -> (kinds: Vec<EventKind>)
        ensures
            kinds@ == kinds_of(self.spec_entries()),
    {
        let mut kinds: Vec<EventKind> = Vec::new();
        let n = self.entries.len();
        for i in 0..n
            invariant
                n == self.entries.len(),
                kinds@.len() == i,
                forall|j: int| 0 <= j < i ==> kinds@[j] == self.entries@[j].kind,
        {
            kinds.push(self.entries[i].kind);
        }
        proof {
            assert(kinds@ =~= kinds_of(self.spec_entries()));
        }
        kinds
    }

    /// Appends a listener for `kind` to the registry and replaces the
    /// running dispatcher: the returned actions, executed in order, cancel
    /// and await the old task, open a fresh connection, subscribe it to the
    /// full kind list of the grown registry, and spawn the new task.
    pub fn add_listener_type(&mut self, kind: EventKind, listener: usize) -> (actions: Vec<
        Action,
    >)
        requires
            old(self).wf(),
            old(self).spec_next_generation() < u64::MAX,
        ensures
            final(self).wf(),
            final(self).spec_entries() == old(self).spec_entries().push(
                ListenerEntry { kind, listener },
            ),
            final(self).spec_status() == (TaskStatus::Running {
                generation: old(self).spec_next_generation(),
            }),
            final(self).spec_next_generation() == old(self).spec_next_generation() + 1,
            valid_restart_actions(
                old(self).spec_status(),
                final(self).spec_entries(),
                old(self).spec_next_generation(),
                actions@,
            ),
    {
        let mut actions: Vec<Action> = Vec::new();
        match self.status {
            TaskStatus::Running { generation } => {
                actions.push(Action::CancelTask { generation });
            },
            TaskStatus::Idle => {},
        }
        self.entries.push(ListenerEntry { kind, listener });
        actions.push(Action::OpenConnection);
        let kinds = self.subscription_kinds();
        actions.push(Action::Subscribe { kinds });
        let generation = self.next_generation;
        self.next_generation = generation + 1;
        self.status = TaskStatus::Running { generation };
        actions.push(Action::SpawnDispatcher { generation });
        actions
    }

    /// The listener handles to invoke for one event of kind `kind`, in
    /// registration order: the dispatcher walks the registry and keeps the
    /// entries whose kind matches.
    pub fn dispatch_targets(&self, kind: EventKind) -> (ids: Vec<usize>)
        ensures
            ids@ == matching_ids(self.spec_entries(), kind),
    {
        dispatch_targets_in(&self.entries, kind)
    }

    /// A copy of the registry as it stands, for the dispatcher task to hold:
    /// the task dispatches against this immutable snapshot until it is
    /// replaced.
    pub fn entries_snapshot(&self) -> (v: Vec<ListenerEntry>)
        ensures
            v@ == self.spec_entries(),
    {
        let mut v: Vec<ListenerEntry> = Vec::new();
        let n = self.entries.len();
        for i in 0..n
            invariant
                n == self.entries.len(),
                v@.len() == i,
                forall|j: int| 0 <= j < i ==> v@[j] == self.entries@[j],
        {
            v.push(self.entries[i]);
        }
        proof {
            assert(v@ =~= self.spec_entries());
        }
        v
    }

    /// The generation the next spawned dispatcher will carry. When this
    /// counter is exhausted no further listener can be registered.
    pub fn next_generation(&self) -> (g: u64)
        ensures
            g == self.spec_next_generation(),
    {
        self.next_generation
    }
}

/// The listener handles registered for `kind` in a registry snapshot, in
/// registration order: what the dispatcher invokes for one event.
pub fn dispatch_targets_in(entries: &Vec<ListenerEntry>, kind: EventKind) -> (ids: Vec<usize>)
    ensures
        ids@ == matching_ids(entries@, kind),
{
    let mut ids: Vec<usize> = Vec::new();
    let n = entries.len();
    for i in 0..n
        invariant
            n == entries@.len(),
            ids@ == matching_ids(entries@.take(i as int), kind),
    {
        proof {
            assert(entries@.take(i + 1).drop_last() =~= entries@.take(i as int));
            assert(entries@.take(i + 1).last() == entries@[i as int]);
        }
        if entries[i].kind == kind {
            ids.push(entries[i].listener);
        }
    }
    proof {
        assert(entries@.take(n as int) =~= entries@);
    }
    ids
}

/// The command string that asks the window manager to focus one workspace.
pub fn focus_command(id: &str) -> (r: String)
    ensures
        r@ == "workspace "@ + id@,
{
    String::from_str("workspace ").concat(id)
}

/// The union of kinds over all registry entries.
pub open spec fn registered_kinds(entries: Seq<ListenerEntry>) -> Set<EventKind> {
    Set::new(
        |k: EventKind| exists|i: int| 0 <= i < entries.len() && #[trigger] entries[i].kind == k,
    )
}

/// The set of kinds among those handed to the subscribe call.
pub open spec fn subscribed_kinds(entries: Seq<ListenerEntry>) -> Set<EventKind> {
    Set::new(
        |k: EventKind|
            exists|j: int|
                0 <= j < kinds_of(entries).len() && #[trigger] kinds_of(entries)[j] == k,
    )
}

/// Registering appends exactly one kind: the kind list of the grown
/// registry is the kind list of the old registry with the new entry's kind
/// appended, so earlier kinds are never reordered or lost.
pub proof fn lemma_register_appends_kind(entries: Seq<ListenerEntry>, e: ListenerEntry)
    ensures
        kinds_of(entries.push(e)) == kinds_of(entries).push(e.kind),
{
    assert(kinds_of(entries.push(e)) =~= kinds_of(entries).push(e.kind));
}

/// No kind is silently dropped: the kind set handed to the subscribe call
/// equals the union of the kinds of all registry entries. Together with the
/// registration contract — the registry only grows, and the subscribe call
/// receives the kinds of the registry as it stands — the active subscription
/// covers the union of all kinds ever registered.
pub proof fn lemma_subscription_covers_all_kinds(entries: Seq<ListenerEntry>)
    ensures
        subscribed_kinds(entries) == registered_kinds(entries),
{
    assert forall|k: EventKind| registered_kinds(entries).contains(k) implies subscribed_kinds(
        entries,
    ).contains(k) by {
        let i = choose|i: int| 0 <= i < entries.len() && #[trigger] entries[i].kind == k;
        assert(kinds_of(entries)[i] == k);
    }
    assert forall|k: EventKind| subscribed_kinds(entries).contains(k) implies registered_kinds(
        entries,
    ).contains(k) by {
        let j = choose|j: int|
            0 <= j < kinds_of(entries).len() && #[trigger] kinds_of(entries)[j] == k;
        assert(entries[j].kind == k);
    }
    assert(subscribed_kinds(entries) =~= registered_kinds(entries));
}

/// At most one dispatcher task is live at every point while the actions of a
/// settled registration are executed in order, and when they are done,
/// exactly the newly spawned task is live: the old task is cancelled and
/// awaited before the replacement is spawned, so no two dispatchers ever
/// read one logical subscription.
pub proof fn lemma_at_most_one_live_dispatcher(
    prev: TaskStatus,
    entries: Seq<ListenerEntry>,
    generation: u64,
    actions: Seq<Action>,
    i: int,
)
    requires
        valid_restart_actions(prev, entries, generation, actions),
        0 <= i <= actions.len(),
    ensures
        forall|x: u64, y: u64|
            live_after(initial_live(prev), actions.take(i)).contains(x) && live_after(
                initial_live(prev),
                actions.take(i),
            ).contains(y) ==> x == y,
        i == actions.len() ==> live_after(initial_live(prev), actions.take(i)) == Set::<
            u64,
        >::empty().insert(generation),
    decreases i,
{
    let live0 = initial_live(prev);
    if i == 0 {
        assert(actions.take(0) =~= Seq::<Action>::empty());
        assert(live_after(live0, actions.take(0)) == live0);
    } else {
        lemma_at_most_one_live_dispatcher(prev, entries, generation, actions, i - 1);
        assert(actions.take(i) =~= actions.take(i - 1).push(actions[i - 1]));
        lemma_live_after_step(live0, actions.take(i - 1), actions[i - 1]);
        let before = live_after(live0, actions.take(i - 1));
        let after = live_after(live0, actions.take(i));
        assert(after == apply_action(before, actions[i - 1]));
        match actions[i - 1] {
            Action::CancelTask { generation: g } => {
                assert(forall|x: u64| after.contains(x) ==> before.contains(x));
            },
            Action::SpawnDispatcher { generation: g } => {
                // The spawn is the last action, and every earlier action
                // only removed or kept tasks, so nothing else is live when
                // it runs.
                assert(i == actions.len());
                lemma_live_shrinks_before_spawn(prev, entries, generation, actions, i - 1);
                assert(before =~= Set::<u64>::empty());
                assert(after =~= Set::<u64>::empty().insert(generation));
            },
            _ => {},
        }
    }
}

/// Executing one more action applies it to the live set.
proof fn lemma_live_after_step(live: Set<u64>, actions: Seq<Action>, a: Action)
    ensures
        live_after(live, actions.push(a)) == apply_action(live_after(live, actions), a),
    decreases actions.len(),
{
    let s = actions.push(a);
    if actions.len() == 0 {
        assert(s[0] == a);
        assert(s.drop_first() =~= Seq::<Action>::empty());
        assert(live_after(apply_action(live, a), Seq::<Action>::empty()) == apply_action(live, a));
        assert(live_after(live, s) == apply_action(live, a));
        assert(live_after(live, actions) == live);
    } else {
        assert(s[0] == actions[0]);
        assert(s.drop_first() =~= actions.drop_first().push(a));
        lemma_live_after_step(apply_action(live, actions[0]), actions.drop_first(), a);
        assert(live_after(live, s) == live_after(apply_action(live, actions[0]), s.drop_first()));
        assert(live_after(live, actions) == live_after(
            apply_action(live, actions[0]),
            actions.drop_first(),
        ));
    }
}

/// Before the final spawn action runs, no dispatcher task is live: the
/// cancellation (if any task was running) came first, and the connection
/// actions touch no task.
proof fn lemma_live_shrinks_before_spawn(
    prev: TaskStatus,
    entries: Seq<ListenerEntry>,
    generation: u64,
    actions: Seq<Action>,
    i: int,
)
    requires
        valid_restart_actions(prev, entries, generation, actions),
        i == actions.len() - 1,
    ensures
        live_after(initial_live(prev), actions.take(i)) =~= Set::<u64>::empty(),
{
    let live0 = initial_live(prev);
    match prev {
        TaskStatus::Idle => {
            assert(actions.take(2) =~= actions.take(0).push(actions[0]).push(actions[1]));
            assert(actions.take(0) =~= Seq::<Action>::empty());
            lemma_live_after_step(live0, actions.take(0), actions[0]);
            assert(actions.take(1) =~= actions.take(0).push(actions[0]));
            lemma_live_after_step(live0, actions.take(1), actions[1]);
            assert(live_after(live0, actions.take(2)) =~= Set::<u64>::empty());
        },
        TaskStatus::Running { generation: g } => {
            assert(actions.take(0) =~= Seq::<Action>::empty());
            assert(actions.take(1) =~= actions.take(0).push(actions[0]));
            assert(actions.take(2) =~= actions.take(1).push(actions[1]));
            assert(actions.take(3) =~= actions.take(2).push(actions[2]));
            lemma_live_after_step(live0, actions.take(0), actions[0]);
            lemma_live_after_step(live0, actions.take(1), actions[1]);
            lemma_live_after_step(live0, actions.take(2), actions[2]);
            assert(live_after(live0, actions.take(1)) =~= Set::<u64>::empty());
            assert(live_after(live0, actions.take(3)) =~= Set::<u64>::empty());
        },
    }
}

/// Every position the indices name filters for the kind, and the handle list
/// follows the index list position by position.
pub proof fn lemma_matching_ids_follow_indices(entries: Seq<ListenerEntry>, kind: EventKind)
    ensures
        matching_ids(entries, kind).len() == matching_indices(entries, kind).len(),
        forall|p: int|
            0 <= p < matching_indices(entries, kind).len() ==> {
                let idx = #[trigger] matching_indices(entries, kind)[p];
                &&& 0 <= idx < entries.len()
                &&& entries[idx].kind == kind
                &&& matching_ids(entries, kind)[p] == entries[idx].listener
            },
    decreases entries.len(),
{
    if entries.len() > 0 {
        lemma_matching_ids_follow_indices(entries.drop_last(), kind);
        assert(forall|j: int|
            0 <= j < entries.len() - 1 ==> entries.drop_last()[j] == entries[j]);
    }
}

/// Callback invocation order matches registration order: the dispatch
/// positions for one kind are strictly increasing, and every registry entry
/// of that kind appears among them, so no listener is skipped and none is
/// invoked out of order.
pub proof fn lemma_dispatch_order(entries: Seq<ListenerEntry>, kind: EventKind)
    ensures
        forall|p: int, q: int|
            0 <= p < q < matching_indices(entries, kind).len() ==> matching_indices(entries, kind)[p]
                < matching_indices(entries, kind)[q],
        forall|i: int|
            0 <= i < entries.len() && entries[i].kind == kind ==> exists|p: int|
                0 <= p < matching_indices(entries, kind).len() && matching_indices(entries, kind)[p]
                    == i,
    decreases entries.len(),
{
    if entries.len() > 0 {
        let rest = matching_indices(entries.drop_last(), kind);
        let whole = matching_indices(entries, kind);
        lemma_dispatch_order(entries.drop_last(), kind);
        lemma_matching_ids_follow_indices(entries.drop_last(), kind);
        assert(forall|j: int|
            0 <= j < entries.len() - 1 ==> entries.drop_last()[j] == entries[j]);
        assert forall|i: int|
            0 <= i < entries.len() && entries[i].kind == kind implies exists|p: int|
            0 <= p < whole.len() && whole[p] == i by {
            if i < entries.len() - 1 {
                let p = choose|p: int| 0 <= p < rest.len() && rest[p] == i;
                assert(whole[p] == i);
            } else {
                assert(entries.last().kind == kind);
                assert(whole[rest.len() as int] == i);
            }
        }
    }
}

} // verus!
