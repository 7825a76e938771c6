//! Features described by data.
//!
//! A [`Compact`] is a feature as a file describes it: what it is called,
//! which builds of the target it goes with, what it writes once at the
//! start of a session, and what it writes when it is toggled.

use crate::handler::compact_patch::CompactPatch;
use crate::memory::views;
use crate::memory::MemoryOp;
use crate::patches::all_fit;
use crate::patches::all_switched;
use crate::patches::all_wf;
use crate::patches::spec_ops;
use crate::patches::uniform;
use crate::patches::Patch;
use crate::patches::PatchError;
use crate::patches::PatchUnitView;
use crate::handler::compact_patch::spec_units;
use vstd::prelude::*;

verus! {

/// The kind of a feature.
#[derive(Clone, Copy, Debug, PartialEq, Eq, Structural)]
pub enum Category {
    General,
    Feature,
    Bugfix,
    Filter,
    QoL,
    Other,
}

/// How a feature goes with one build of the target.
#[derive(Clone, Copy, Debug, PartialEq, Eq, Structural)]
pub enum Versions {
    /// The feature works.
    Allow,
    /// The feature may work.
    Warn,
    /// The feature must not be used.
    Deny,
}

/// What a feature is called.
#[derive(Debug)]
pub struct General {
    pub name: String,
    pub description: String,
    pub category: Category,
}

/// The number of builds that a feature speaks of.
pub const VERSIONS_LEN: usize = 5;

/// Which builds of the target a feature goes with.
#[derive(Debug)]
pub struct Compatibility {
    pub versions: [Versions; 5],
    pub experimental: bool,
}

/// The units of an optional part; none where the part is missing.
pub open spec fn units_of(part: Option<CompactPatch>) -> Seq<PatchUnitView> {
    match part {
        Some(patch) => patch@,
        None => Seq::empty(),
    }
}

/// The units that optional data describes; none where there is no data.
pub open spec fn spec_part(data: Option<Vec<(usize, Vec<u8>, Vec<u8>)>>) -> Seq<PatchUnitView> {
    match data {
        Some(data) => spec_units(data@),
        None => Seq::empty(),
    }
}

/// A feature described by data.
#[derive(Debug)]
pub struct Compact {
    general: General,
    compatibility: Compatibility,
    start: Option<CompactPatch>,
    toggle: Option<CompactPatch>,
    enabled: bool,
    previous: bool,
}

/// Makes the units of an optional part.
fn part(data: Option<Vec<(usize, Vec<u8>, Vec<u8>)>>) -> (r: Result<
    Option<CompactPatch>,
    PatchError,
>)
    ensures
        all_wf(spec_part(data)) ==> r is Ok && units_of(r->Ok_0) == spec_part(data) && (
        r->Ok_0 matches Some(patch) ==> !patch.enabled()),
        !all_wf(spec_part(data)) ==> r is Err && r->Err_0 == PatchError::LengthMismatch,
{
    match data {
        Some(data) => match CompactPatch::new(data) {
            Ok(patch) => Ok(Some(patch)),
            Err(e) => Err(e),
        },
        None => Ok(None),
    }
}

impl Compact {
    /// What the feature is called.
    pub closed spec fn spec_general(&self) -> General {
        self.general
    }

    /// Whether the feature is marked as an experiment.
    pub closed spec fn spec_experimental(&self) -> bool {
        self.compatibility.experimental
    }

    /// How the feature goes with each build.
    pub closed spec fn spec_versions(&self) -> Seq<Versions> {
        self.compatibility.versions@
    }

    /// Whether toggling the feature found it switched on at last.
    pub closed spec fn enabled(&self) -> bool {
        self.enabled
    }

    /// The state that the feature was in before it was last switched: what
    /// a failed update puts back.
    pub closed spec fn previous(&self) -> bool {
        self.previous
    }

    /// Whether the units that the feature switches are all recorded as the
    /// feature itself is. Every feature is made so and stays so.
    pub open spec fn consistent(&self) -> bool {
        uniform(self.spec_toggle(), self.enabled())
    }

    /// The units that the feature switches on at the start.
    pub closed spec fn spec_start(&self) -> Seq<PatchUnitView> {
        units_of(self.start)
    }

    /// The units that the feature switches when toggled.
    pub closed spec fn spec_toggle(&self) -> Seq<PatchUnitView> {
        units_of(self.toggle)
    }

    /// A feature, switched off. One unit whose "on" bytes and "off" bytes
    /// differ in length, in either part, refuses the whole feature.
    pub fn new(
        general: General,
        compatibility: Compatibility,
        start: Option<Vec<(usize, Vec<u8>, Vec<u8>)>>,
        toggle: Option<Vec<(usize, Vec<u8>, Vec<u8>)>>,
    ) -> (r: Result<Compact, PatchError>)
        ensures
            all_wf(spec_part(start)) && all_wf(spec_part(toggle)) ==> r is Ok
                && r->Ok_0.spec_start() == spec_part(start) && r->Ok_0.spec_toggle() == spec_part(
                toggle,
            ) && !r->Ok_0.enabled() && !r->Ok_0.previous() && r->Ok_0.consistent()
                && r->Ok_0.spec_versions() == compatibility.versions@
                && r->Ok_0.spec_general() == general && r->Ok_0.spec_experimental()
                == compatibility.experimental,
            !(all_wf(spec_part(start)) && all_wf(spec_part(toggle))) ==> r is Err && r->Err_0
                == PatchError::LengthMismatch,
    {
        let start = match part(start) {
            Ok(start) => start,
            Err(e) => { return Err(e); },
        };
        let toggle = match part(toggle) {
            Ok(toggle) => toggle,
            Err(e) => { return Err(e); },
        };
        Ok(Compact { general, compatibility, start, toggle, enabled: false, previous: false })
    }

    /// What the feature is called.
    pub fn general(&self) -> (general: &General)
        ensures
            *general == self.spec_general(),
    {
        &self.general
    }

    /// Whether the feature is marked as an experiment.
    pub fn experimental(&self) -> (experimental: bool)
        ensures
            experimental == self.spec_experimental(),
    {
        self.compatibility.experimental
    }

    /// How the feature goes with the build of index `version`. A build
    /// that the feature does not speak of is denied.
    pub fn compatibility(&self, version: usize) -> (verdict: Versions)
        ensures
            verdict == (if version < 5 {
                self.spec_versions()[version as int]
            } else {
                Versions::Deny
            }),
    {
        if version < VERSIONS_LEN {
            self.compatibility.versions[version]
        } else {
            Versions::Deny
        }
    }

    /// Switches the toggled part to `on`.
    fn switch(&mut self, base: usize, on: bool) -> (r: Result<Vec<MemoryOp>, PatchError>)
        ensures
            final(self).spec_start() == old(self).spec_start(),
            final(self).spec_versions() == old(self).spec_versions(),
            final(self).spec_general() == old(self).spec_general(),
            final(self).spec_experimental() == old(self).spec_experimental(),
            all_fit(old(self).spec_toggle(), base) ==> r is Ok && views(r->Ok_0@) == spec_ops(
                old(self).spec_toggle(),
                base,
                on,
            ) && final(self).spec_toggle() == all_switched(old(self).spec_toggle(), on)
                && final(self).enabled() == on && final(self).previous() == old(self).enabled()
                && final(self).consistent(),
            !all_fit(old(self).spec_toggle(), base) ==> r is Err && r->Err_0
                == PatchError::AddressOverflow
                && final(self).spec_toggle() == old(self).spec_toggle()
                && final(self).enabled() == old(self).enabled()
                && final(self).previous() == old(self).previous(),
    {
        let r = match self.toggle.take() {
            Some(mut patch) => {
                let planned = patch.plan(base, on);
                if planned.is_ok() {
                    patch.mark(on);
                }
                self.toggle = Some(patch);
                planned
            },
            None => {
                let ops: Vec<MemoryOp> = Vec::new();
                proof {
                    assert(views(ops@) =~= spec_ops(Seq::<PatchUnitView>::empty(), base, on));
                    assert(all_switched(Seq::<PatchUnitView>::empty(), on) =~= Seq::<
                        PatchUnitView,
                    >::empty());
                }
                Ok(ops)
            },
        };
        if r.is_ok() {
            self.previous = self.enabled;
            self.enabled = on;
        }
        r
    }

    /// Takes back the last switch, after what it asked for has failed in
    /// the process: the feature and its units are recorded as what they
    /// were before that switch, whether the switch changed them or not.
    pub fn update_failed(&mut self)
        ensures
            final(self).spec_start() == old(self).spec_start(),
            final(self).spec_versions() == old(self).spec_versions(),
            final(self).spec_general() == old(self).spec_general(),
            final(self).spec_experimental() == old(self).spec_experimental(),
            final(self).spec_toggle()
                == all_switched(old(self).spec_toggle(), old(self).previous()),
            final(self).enabled() == old(self).previous(),
            final(self).previous() == old(self).previous(),
            final(self).consistent(),
    {
        let previous = self.previous;
        match self.toggle.take() {
            Some(mut patch) => {
                patch.mark(previous);
                self.toggle = Some(patch);
            },
            None => {
                proof {
                    assert(all_switched(Seq::<PatchUnitView>::empty(), previous) =~= Seq::<
                        PatchUnitView,
                    >::empty());
                }
            },
        }
        self.enabled = previous;
    }
}

impl Patch for Compact {
    open spec fn units(&self) -> Seq<PatchUnitView> {
        self.spec_toggle()
    }

    open spec fn start_units(&self) -> Seq<PatchUnitView> {
        self.spec_start()
    }

    open spec fn active(&self) -> bool {
        self.enabled()
    }

    open spec fn was_active(&self) -> bool {
        self.previous()
    }

    fn start(&self, base: usize) -> (r: Result<Vec<MemoryOp>, PatchError>) {
        match &self.start {
            Some(patch) => patch.plan(base, true),
            None => {
                let ops: Vec<MemoryOp> = Vec::new();
                proof {
                    assert(views(ops@) =~= spec_ops(Seq::<PatchUnitView>::empty(), base, true));
                }
                Ok(ops)
            },
        }
    }

    fn update(&self, base: usize) -> (r: Result<Vec<MemoryOp>, PatchError>) {
        match &self.toggle {
            Some(patch) => patch.plan(base, self.enabled),
            None => {
                let ops: Vec<MemoryOp> = Vec::new();
                proof {
                    assert(views(ops@) =~= spec_ops(
                        Seq::<PatchUnitView>::empty(),
                        base,
                        self.enabled,
                    ));
                }
                Ok(ops)
            },
        }
    }

    fn enable(&mut self, base: usize) -> (r: Result<Vec<MemoryOp>, PatchError>) {
        self.switch(base, true)
    }

    fn disable(&mut self, base: usize) -> (r: Result<Vec<MemoryOp>, PatchError>) {
        self.switch(base, false)
    }

    fn toggle(&mut self, base: usize) -> (r: Result<Vec<MemoryOp>, PatchError>) {
        let on = !self.enabled;
        self.switch(base, on)
    }

    fn update_failed(&mut self) {
        Compact::update_failed(self)
    }
}

} // verus!
