//! What the application around the library shows and asks.

use vstd::prelude::*;
use vstd::string::*;

verus! {

/// The tabs of the window. One of them is open at any time.
#[derive(Clone, Copy, Debug, PartialEq, Eq, Structural)]
pub enum Tab {
    StarbPlugins,
    Filters,
    Context,
    CustomPlugins,
}

impl Default for Tab {
    fn default() -> (tab: Tab)
        ensures
            tab == Tab::StarbPlugins,
    {
        Tab::StarbPlugins
    }
}

impl Tab {
    /// The switches of the four tabs when this one is open: its own is
    /// on, the others are off.
    pub open spec fn spec_switches(self) -> (bool, bool, bool, bool) {
        (
            self == Tab::StarbPlugins,
            self == Tab::Filters,
            self == Tab::Context,
            self == Tab::CustomPlugins,
        )
    }

    /// The label of the tab.
    pub open spec fn spec_label(self) -> Seq<char> {
        match self {
            Tab::StarbPlugins => "Plugins"@,
            Tab::Filters => "Filters"@,
            Tab::Context => "Context"@,
            Tab::CustomPlugins => "Custom Plugins"@,
        }
    }

    /// The switches of the four tabs when this one is open. A click on a
    /// tab opens it, also where the click switched it off: no click can
    /// close every tab.
    pub fn switches(&self) -> (switches: (bool, bool, bool, bool))
        ensures
            switches == self.spec_switches(),
    {
        match self {
            Tab::StarbPlugins => (true, false, false, false),
            Tab::Filters => (false, true, false, false),
            Tab::Context => (false, false, true, false),
            Tab::CustomPlugins => (false, false, false, true),
        }
    }

    /// The label of the tab.
    pub fn label(&self) -> (label: String)
        ensures
            label@ == self.spec_label(),
    {
        match self {
            Tab::StarbPlugins => String::from_str("Plugins"),
            Tab::Filters => String::from_str("Filters"),
            Tab::Context => String::from_str("Context"),
            Tab::CustomPlugins => String::from_str("Custom Plugins"),
        }
    }
}

/// The build of the target that the patches are made for.
pub const BUILD_ID: i32 = 11154210;

/// Checks the build that the storefront reports for the target: `None`
/// where it is the build that the patches are made for, else the build
/// that was found instead.
pub fn check_build_id(build_id: i32) -> (found: Option<i32>)
    ensures
        found == (if build_id == BUILD_ID {
            None::<i32>
        } else {
            Some(build_id)
        }),
{
    if build_id == BUILD_ID {
        None
    } else {
        Some(build_id)
    }
}

/// Whether a window of the given class is the main window of the target:
/// it belongs to the target, it is visible, and it is neither the splash
/// screen nor the hidden window that receives events.
pub open spec fn spec_is_main_window(class: Seq<char>, own: bool, visible: bool) -> bool {
    own && visible && class != "SE Splash"@ && class != "Winit Thread Event Target"@
}

/// Whether a window of the given class is the main window of the target.
/// `own` says whether the window belongs to the target's process.
pub fn check_if_window_is_opened(class: &str, own: bool, visible: bool) -> (found: bool)
    ensures
        found == spec_is_main_window(class@, own, visible),
{
    if !own || !visible {
        return false;
    }
    let class = String::from_str(class);
    let splash = String::from_str("SE Splash");
    let events = String::from_str("Winit Thread Event Target");
    !class.eq(&splash) && !class.eq(&events)
}

} // verus!
