//! Compatibility of a target process and a module.
//!
//! A module loaded into a process built for another platform does not fail
//! cleanly: it damages the process. So the question is settled on the
//! records first, and once more on what the operating system says of the
//! process at the moment of injection.

use vstd::prelude::*;
use crate::module::ModuleDescriptor;
use crate::platform::{fits, Platform};
use crate::process::{ProcessRecord, ProcessView};

verus! {

/// The verdict on a target process and a module.
#[derive(Clone, Copy, Debug, PartialEq, Eq, Structural)]
pub enum CompatibilityResult {
    /// The module can be loaded by the process.
    Compatible,
    /// The module is built for `found`; the process needs `expected`, its
    /// own platform.
    ArchitectureMismatch { expected: Platform, found: Platform },
    /// The process is no longer there.
    ProcessNotFound,
    /// The process may not be looked at.
    PermissionDenied,
}

/// What the operating system says of a process when asked at this moment.
#[derive(Debug, PartialEq, Eq)]
pub enum Observation {
    /// The process lives, and this is its record as of now.
    Alive(ProcessRecord),
    /// No such process lives.
    Gone,
    /// The process may not be looked at.
    Denied,
}

/// An observation as a mathematical value.
pub enum ObservationView {
    Alive(ProcessView),
    Gone,
    Denied,
}

impl View for Observation {
    type V = ObservationView;

    open spec fn view(&self) -> ObservationView {
        match self {
            Observation::Alive(record) => ObservationView::Alive(record@),
            Observation::Gone => ObservationView::Gone,
            Observation::Denied => ObservationView::Denied,
        }
    }
}

/// The verdict on two platforms: compatible where the module fits the
/// target, else a mismatch that names both.
pub open spec fn compatibility(target: Platform, module: Platform) -> CompatibilityResult {
    if fits(target, module) {
        CompatibilityResult::Compatible
    } else {
        CompatibilityResult::ArchitectureMismatch { expected: target, found: module }
    }
}

/// The verdict on a module and what was observed of the process
/// `process_id`. A process that is gone, or another process than the one
/// asked for, is `ProcessNotFound`; one that may not be looked at is
/// `PermissionDenied`; a live one is judged by its present platform.
pub open spec fn live_compatibility(
    process_id: u32,
    seen: ObservationView,
    module: Platform,
) -> CompatibilityResult {
    match seen {
        ObservationView::Gone => CompatibilityResult::ProcessNotFound,
        ObservationView::Denied => CompatibilityResult::PermissionDenied,
        ObservationView::Alive(live) => if live.process_id == process_id {
            compatibility(live.platform(), module)
        } else {
            CompatibilityResult::ProcessNotFound
        },
    }
}

/// Judges whether `module` can be injected into `target`, from the two
/// records alone.
pub fn check(target: &ProcessRecord, module: &ModuleDescriptor) -> (verdict: CompatibilityResult)
    ensures
        verdict == compatibility(target@.platform(), module@.platform()),
        module@.is_sound(),
{
    let expected = target.platform();
    let found = module.platform();
    if expected.accepts(&found) {
        CompatibilityResult::Compatible
    } else {
        CompatibilityResult::ArchitectureMismatch { expected, found }
    }
}

/// Judges once more, at the moment of injection, from what the operating
/// system says of the process now. Of the earlier record only the process
/// id is used.
pub fn recheck(process_id: u32, seen: &Observation, module: &ModuleDescriptor) -> (verdict:
    CompatibilityResult)
    ensures
        verdict == live_compatibility(process_id, seen@, module@.platform()),
{
    match seen {
        Observation::Gone => CompatibilityResult::ProcessNotFound,
        Observation::Denied => CompatibilityResult::PermissionDenied,
        Observation::Alive(live) => {
            if live.process_id == process_id {
                check(live, module)
            } else {
                CompatibilityResult::ProcessNotFound
            }
        },
    }
}

/// A module of another pointer width than the target's is refused as an
/// architecture mismatch that names the target's platform as expected and
/// the module's as found.
pub proof fn law_width_mismatch_is_refused(target: Platform, module: Platform)
    requires
        target.pointer_width != module.pointer_width,
    ensures
        compatibility(target, module) == (CompatibilityResult::ArchitectureMismatch {
            expected: target,
            found: module,
        }),
{
}

/// A verdict on two records is `Compatible` or a mismatch, and `Compatible`
/// exactly where the pointer widths are equal and the instruction sets are
/// the same or of one family.
pub proof fn law_compatible_iff_fits(target: Platform, module: Platform)
    ensures
        compatibility(target, module) is Compatible <==> fits(target, module),
        compatibility(target, module) is Compatible || compatibility(target, module)
            is ArchitectureMismatch,
{
}

} // verus!
