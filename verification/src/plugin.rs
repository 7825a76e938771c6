//! What every feature tells the application that hosts it.

use crate::patches::PatchError;
use vstd::prelude::*;

verus! {

/// When a feature is loaded.
#[derive(Clone, Copy, Debug, PartialEq, Eq, Structural)]
pub enum PluginPass {
    /// As early as possible.
    Early,
    /// After the main window of the target has opened.
    Late,
}

/// Why a feature could not be loaded.
#[derive(Clone, Copy, Debug, PartialEq, Eq, Structural)]
pub enum PluginError {
    /// The target does not hold what the supported build holds where the
    /// feature patches it.
    WrongVersion,
    /// The patch of the feature could not be made.
    Patch(PatchError),
}

/// A feature as the application sees it.
pub trait Plugin {
    /// When the feature is loaded.
    spec fn spec_pass(&self) -> PluginPass;

    /// The name of the feature.
    spec fn spec_name(&self) -> Seq<char>;

    /// The place of the feature among the others; smaller comes first.
    spec fn spec_priority(&self) -> Option<usize>;

    /// When the feature is loaded.
    fn pass(&self) -> (pass: PluginPass)
        ensures
            pass == self.spec_pass(),
    ;

    /// The name of the feature, which is also the heading it is shown
    /// under.
    fn name(&self) -> (name: String)
        ensures
            name@ == self.spec_name(),
    ;

    /// The tab that shows the feature; `None` for the default one.
    fn section(&self) -> (section: Option<String>)
        ensures
            section is None,
    ;

    /// The place of the feature among the others; smaller comes first.
    fn priority(&self) -> (priority: Option<usize>)
        ensures
            priority == self.spec_priority(),
    ;
}

} // verus!
