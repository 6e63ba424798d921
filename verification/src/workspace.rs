//! The workspace domain: the projected value per workspace, the raw workspace
//! event as the transport reports it, and the mapping from raw events to
//! domain updates. Unrecognized raw change kinds map to `Unknown` rather than
//! failing, which keeps the bridge forward compatible with protocol
//! additions.

use vstd::prelude::*;

verus! {

/// Whether a workspace is shown on some monitor, and whether it holds the
/// focus.
#[derive(Clone, Copy, Debug, PartialEq, Eq, Structural)]
pub enum Visibility {
    Visible { focused: bool },
    Hidden,
}

/// The raw change tag carried by a workspace event, as the window-manager
/// transport enumerates it.
#[derive(Clone, Copy, Debug, PartialEq, Eq, Structural)]
pub enum WorkspaceChange {
    Init,
    Empty,
    Focus,
    Move,
    Rename,
    Urgent,
    Reload,
}

/// One workspace, as the domain projects it from the transport's node data.
#[derive(Clone, Debug)]
pub struct Workspace {
    pub id: i64,
    pub name: String,
    pub monitor: String,
    pub visibility: Visibility,
}

/// One raw workspace event: the change tag, the workspace it concerns, and,
/// for focus changes, the workspace the focus left.
#[derive(Clone, Debug)]
pub struct WorkspaceEvent {
    pub change: WorkspaceChange,
    pub current: Option<Workspace>,
    pub old: Option<Workspace>,
}

/// A domain update broadcast to workspace subscribers. `Init` carries the
/// full current state and is the first message every new subscriber
/// receives; the other variants are deltas. Each delta is a complete
/// description of its change: `Focus` embeds both endpoints, so it stays
/// self-describing even after a gap.
#[derive(Clone, Debug)]
pub enum WorkspaceUpdate {
    Init(Vec<Workspace>),
    Add(Workspace),
    Remove(i64),
    Move(Workspace),
    Focus { old: Option<Workspace>, new: Workspace },
    Unknown,
}

impl Visibility {
    /// The visibility of the workspace that holds the focus.
    pub fn focused() -> (r: Visibility)
        ensures
            r == (Visibility::Visible { focused: true }),
    {
        Visibility::Visible { focused: true }
    }

    /// The visibility of a shown workspace without the focus.
    pub fn visible() -> (r: Visibility)
        ensures
            r == (Visibility::Visible { focused: false }),
    {
        Visibility::Visible { focused: false }
    }

    /// How the two transport flags decide visibility: focus wins over mere
    /// visibility.
    pub open spec fn spec_from_flags(focused: bool, visible: bool) -> Visibility {
        if focused {
            Visibility::Visible { focused: true }
        } else if visible {
            Visibility::Visible { focused: false }
        } else {
            Visibility::Hidden
        }
    }

    /// Decides visibility from the transport's `focused` and `visible` flags.
    pub fn from_flags(focused: bool, visible: bool) -> (r: Visibility)
        ensures
            r == Visibility::spec_from_flags(focused, visible),
    {
        if focused {
            Visibility::focused()
        } else if visible {
            Visibility::visible()
        } else {
            Visibility::Hidden
        }
    }
}

impl Workspace {
    /// Builds a workspace from the fields of a transport tree node, where
    /// name, output and visibility are all optional: a missing name or
    /// output becomes empty, a missing visibility flag counts as not
    /// visible.
    pub fn from_node_parts(
        id: i64,
        name: Option<String>,
        output: Option<String>,
        focused: bool,
        visible: Option<bool>,
    ) -> (w: Workspace)
        ensures
            w.id == id,
            w.name@ == (match name {
                Option::Some(n) => n@,
                Option::None => Seq::<char>::empty(),
            }),
            w.monitor@ == (match output {
                Option::Some(o) => o@,
                Option::None => Seq::<char>::empty(),
            }),
            w.visibility == Visibility::spec_from_flags(
                focused,
                match visible {
                    Option::Some(v) => v,
                    Option::None => false,
                },
            ),
    {
        let visible_flag = match visible {
            Option::Some(v) => v,
            Option::None => false,
        };
        Workspace {
            id,
            name: match name {
                Option::Some(n) => n,
                Option::None => String::new(),
            },
            monitor: match output {
                Option::Some(o) => o,
                Option::None => String::new(),
            },
            visibility: Visibility::from_flags(focused, visible_flag),
        }
    }

    /// Builds a workspace from the fields of the transport's workspace
    /// record, where name, output and both flags are always present.
    pub fn from_ipc_parts(
        id: i64,
        name: String,
        output: String,
        focused: bool,
        visible: bool,
    ) -> (w: Workspace)
        ensures
            w.id == id,
            w.name == name,
            w.monitor == output,
            w.visibility == Visibility::spec_from_flags(focused, visible),
    {
        Workspace { id, name, monitor: output, visibility: Visibility::from_flags(focused, visible) }
    }

    /// An exact copy: verified code learns that the copy equals the
    /// original.
    pub fn duplicate(&self) -> (w: Workspace)
        ensures
            w == *self,
    {
        Workspace {
            id: self.id,
            name: self.name.clone(),
            monitor: self.monitor.clone(),
            visibility: self.visibility,
        }
    }
}

/// An exact copy of an optional workspace.
pub fn duplicate_opt_workspace(o: &Option<Workspace>) -> (r: Option<Workspace>)
    ensures
        r == *o,
{
    match o {
        Option::Some(w) => Option::Some(w.duplicate()),
        Option::None => Option::None,
    }
}

impl WorkspaceEvent {
    /// An exact copy, for handing one event to several listeners.
    pub fn duplicate(&self) -> (e: WorkspaceEvent)
        ensures
            e == *self,
    {
        WorkspaceEvent {
            change: self.change,
            current: duplicate_opt_workspace(&self.current),
            old: duplicate_opt_workspace(&self.old),
        }
    }

    /// A raw event is well formed when it carries the workspace it concerns
    /// for every change kind that speaks of one. The transport guarantees
    /// this; an event that breaks it is a protocol violation.
    pub open spec fn wf(&self) -> bool {
        (self.change == WorkspaceChange::Init || self.change == WorkspaceChange::Empty
            || self.change == WorkspaceChange::Focus || self.change == WorkspaceChange::Move)
            ==> self.current is Some
    }
}

/// How a raw workspace event projects to a domain update: a raw `Init`
/// change reports a newly created workspace, so it becomes `Add`; `Empty`
/// removes the workspace, carrying its identifier; `Focus` carries both
/// endpoints; `Move` carries the moved workspace; every other change kind
/// maps to `Unknown`.
pub open spec fn update_of_event(e: WorkspaceEvent) -> WorkspaceUpdate {
    match e.change {
        WorkspaceChange::Init => WorkspaceUpdate::Add(e.current->0),
        WorkspaceChange::Empty => WorkspaceUpdate::Remove(e.current->0.id),
        WorkspaceChange::Focus => WorkspaceUpdate::Focus { old: e.old, new: e.current->0 },
        WorkspaceChange::Move => WorkspaceUpdate::Move(e.current->0),
        WorkspaceChange::Rename => WorkspaceUpdate::Unknown,
        WorkspaceChange::Urgent => WorkspaceUpdate::Unknown,
        WorkspaceChange::Reload => WorkspaceUpdate::Unknown,
    }
}

impl WorkspaceUpdate {
    /// Projects a raw workspace event to its domain update.
    pub fn from_event(e: WorkspaceEvent) -> (u: WorkspaceUpdate)
        requires
            e.wf(),
        ensures
            u == update_of_event(e),
    {
        match e.change {
            WorkspaceChange::Init => WorkspaceUpdate::Add(e.current.unwrap()),
            WorkspaceChange::Empty => WorkspaceUpdate::Remove(e.current.unwrap().id),
            WorkspaceChange::Focus => WorkspaceUpdate::Focus {
                old: e.old,
                new: e.current.unwrap(),
            },
            WorkspaceChange::Move => WorkspaceUpdate::Move(e.current.unwrap()),
            WorkspaceChange::Rename => WorkspaceUpdate::Unknown,
            WorkspaceChange::Urgent => WorkspaceUpdate::Unknown,
            WorkspaceChange::Reload => WorkspaceUpdate::Unknown,
        }
    }

    /// An exact copy of a delta update. `Init` is built and moved once per
    /// subscriber and is never fanned out, so no copy of it is needed.
    pub(crate) fn duplicate(&self) -> (u: WorkspaceUpdate)
        requires
            !(*self is Init),
        ensures
            u == *self,
    {
        match self {
            WorkspaceUpdate::Init(_) => WorkspaceUpdate::Unknown,
            WorkspaceUpdate::Add(w) => WorkspaceUpdate::Add(w.duplicate()),
            WorkspaceUpdate::Remove(id) => WorkspaceUpdate::Remove(*id),
            WorkspaceUpdate::Move(w) => WorkspaceUpdate::Move(w.duplicate()),
            WorkspaceUpdate::Focus { old, new } => WorkspaceUpdate::Focus {
                old: duplicate_opt_workspace(old),
                new: new.duplicate(),
            },
            WorkspaceUpdate::Unknown => WorkspaceUpdate::Unknown,
        }
    }
}

/// The round trip from raw change kinds to domain updates: a raw `Init`
/// change maps to `Add` of the reported workspace, a raw `Empty` change maps
/// to `Remove` carrying the same identifier, and every change kind the
/// domain does not recognize maps to `Unknown`, never to a failure.
pub proof fn lemma_event_round_trip(e: WorkspaceEvent)
    requires
        e.wf(),
    ensures
        e.change == WorkspaceChange::Init ==> update_of_event(e) == WorkspaceUpdate::Add(
            e.current->0,
        ),
        e.change == WorkspaceChange::Empty ==> update_of_event(e) == WorkspaceUpdate::Remove(
            e.current->0.id,
        ),
        (e.change == WorkspaceChange::Rename || e.change == WorkspaceChange::Urgent
            || e.change == WorkspaceChange::Reload) ==> update_of_event(e)
            == WorkspaceUpdate::Unknown,
{
}

} // verus!
