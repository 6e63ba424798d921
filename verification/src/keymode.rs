//! The key-binding-mode domain: the event a mode change produces, which
//! backend serves it, and the label text a mode shows. The default mode
//! shows an empty label; any other mode shows its own name.

use vstd::prelude::*;

use crate::strutil::str_eq;
use crate::BridgeError;

verus! {

/// A binding-mode change, as the widget consumes it.
#[derive(Clone, Debug)]
pub struct ModeEvent {
    /// The binding mode that became active.
    pub name: String,
    /// Whether the mode should be parsed as pango markup.
    pub pango_markup: bool,
}

/// The backends that can deliver binding-mode events.
#[derive(Clone, Copy, Debug, PartialEq, Eq, Structural)]
pub enum Backend {
    Sway,
    Hyprland,
}

/// The key-binding-mode widget.
#[derive(Clone, Copy, Debug, PartialEq, Eq, Structural)]
pub struct Keymode {}

/// The label text a mode shows: nothing for the default mode, the mode's
/// name otherwise.
pub open spec fn spec_mode_label(name: Seq<char>) -> Seq<char> {
    if name == "default"@ {
        Seq::empty()
    } else {
        name
    }
}

impl ModeEvent {
    /// The event a raw window-manager mode change produces: the mode name,
    /// with the markup flag the transport reports.
    pub fn from_sway_mode(change: &String, pango_markup: bool) -> (m: ModeEvent)
        ensures
            m.name == *change,
            m.pango_markup == pango_markup,
    {
        ModeEvent { name: change.clone(), pango_markup }
    }

    /// The event a submap change produces: submap names carry no markup.
    pub fn from_submap(submap: &String) -> (m: ModeEvent)
        ensures
            m.name == *submap,
            m.pango_markup == false,
    {
        ModeEvent { name: submap.clone(), pango_markup: false }
    }
}

impl Keymode {
    /// The label text the widget shows for one mode.
    pub fn label_for_mode(&self, mode: &ModeEvent) -> (r: String)
        ensures
            r@ == spec_mode_label(mode.name@),
    {
        if str_eq(mode.name.as_str(), "default") {
            String::new()
        } else {
            mode.name.clone()
        }
    }
}

/// Which backend serves the widget: the window-manager IPC backend when it
/// is available, else the compositor's own event socket; with neither, the
/// registration fails.
pub fn select_backend(sway_available: bool, hyprland_available: bool) -> (r: Result<
    Backend,
    BridgeError,
>)
    ensures
        sway_available ==> r == Result::<Backend, BridgeError>::Ok(Backend::Sway),
        !sway_available && hyprland_available ==> r == Result::<Backend, BridgeError>::Ok(
            Backend::Hyprland,
        ),
        !sway_available && !hyprland_available ==> r == Result::<Backend, BridgeError>::Err(
            BridgeError::NoBackend,
        ),
{
    if sway_available {
        Result::Ok(Backend::Sway)
    } else if hyprland_available {
        Result::Ok(Backend::Hyprland)
    } else {
        Result::Err(BridgeError::NoBackend)
    }
}

} // verus!
