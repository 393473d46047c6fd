//! The way to an injection: resolve the target, describe the module, check
//! the two against each other, and only then make the attempt.

use vstd::prelude::*;
use crate::compat::{compatibility, CompatibilityResult};
use crate::engine::{fresh, Injection};
use crate::module::{describe, probe_platform, FileProbe, ModuleError, ModuleView, ProbeView};
use crate::platform::{fits, Platform};
use crate::process::{snapshot_view, ProcessRecord, ProcessView};
use crate::resolver::{resolution, resolve, SelectionMethod, SelectionView, TargetError};

verus! {

/// Why no attempt was made.
#[derive(Clone, Copy, Debug, PartialEq, Eq, Structural)]
pub enum Refusal {
    /// The selection designates no process.
    Target(TargetError),
    /// The file is no module.
    Module(ModuleError),
    /// The module does not fit the process.
    Incompatible(CompatibilityResult),
}

/// What the preparation of an attempt comes to: the place of the target in
/// the snapshot and the module's platform, or the first reason that stands
/// against the attempt. The target is resolved first, then the module is
/// described, then the two are checked.
pub open spec fn preparation(
    method: SelectionView,
    records: Seq<ProcessView>,
    probe: ProbeView,
) -> Result<(int, Platform), Refusal> {
    match resolution(method, records) {
        Err(e) => Err(Refusal::Target(e)),
        Ok(i) => match probe_platform(probe) {
            Err(e) => Err(Refusal::Module(e)),
            Ok(module) => if fits(records[i].platform(), module) {
                Ok((i, module))
            } else {
                Err(Refusal::Incompatible(compatibility(records[i].platform(), module)))
            },
        },
    }
}

/// Prepares an attempt from the operator's choice: resolves `method` in
/// `snapshot`, describes the module at `file_path` from `probe`, checks the
/// module against the target, and makes the attempt, not yet started.
///
/// The first of these that fails is the refusal. An attempt is made of a
/// compatible pair only.
pub fn prepare(
    method: &SelectionMethod,
    snapshot: &[ProcessRecord],
    file_path: &str,
    probe: &FileProbe,
    timeout_ms: u32,
) -> (prepared: Result<Injection, Refusal>)
    ensures
        match prepared {
            Ok(injection) => {
                &&& preparation(method@, snapshot_view(snapshot@), probe@) matches Ok((i, module))
                &&& 0 <= i < snapshot@.len()
                &&& probe@ matches ProbeView::Found { size_bytes, .. }
                &&& injection@ == fresh(
                    snapshot@[i]@,
                    ModuleView {
                        file_path: file_path@,
                        architecture: module.architecture,
                        pointer_width: module.pointer_width,
                        size_bytes,
                    },
                    timeout_ms,
                )
                &&& injection@.wf()
            },
            Err(refusal) => preparation(method@, snapshot_view(snapshot@), probe@) == Err::<
                (int, Platform),
                Refusal,
            >(refusal),
        },
{
    let target = match resolve(method, snapshot) {
        Ok(target) => target,
        Err(e) => {
            return Err(Refusal::Target(e));
        },
    };
    let module = match describe(file_path, probe) {
        Ok(module) => module,
        Err(e) => {
            return Err(Refusal::Module(e));
        },
    };
    match Injection::new(target, module, timeout_ms) {
        Ok(injection) => Ok(injection),
        Err(verdict) => Err(Refusal::Incompatible(verdict)),
    }
}

/// Where the pointer widths of the resolved target and of the module
/// differ, no attempt is made: the preparation ends in a refusal that names
/// both platforms.
pub proof fn law_width_mismatch_stops_the_preparation(
    method: SelectionView,
    records: Seq<ProcessView>,
    probe: ProbeView,
)
    requires
        resolution(method, records) matches Ok(i) && probe_platform(probe) matches Ok(module)
            && records[i].pointer_width != module.pointer_width,
    ensures
        preparation(method, records, probe) == Err::<(int, Platform), Refusal>(
            Refusal::Incompatible(
                CompatibilityResult::ArchitectureMismatch {
                    expected: records[resolution(method, records)->Ok_0].platform(),
                    found: probe_platform(probe)->Ok_0,
                },
            ),
        ),
{
}

/// An attempt is prepared exactly where the target resolves, the module is
/// described and the two fit.
pub proof fn law_prepared_iff_all_three_pass(
    method: SelectionView,
    records: Seq<ProcessView>,
    probe: ProbeView,
)
    ensures
        preparation(method, records, probe) is Ok <==> (resolution(method, records) matches Ok(i)
            && probe_platform(probe) matches Ok(module) && fits(records[i].platform(), module)),
{
}

} // verus!
