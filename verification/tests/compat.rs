use nullptr_injector::compat::{check, recheck, CompatibilityResult, Observation};
use nullptr_injector::module::{describe, FileProbe, ModuleDescriptor};
use nullptr_injector::platform::{Architecture, Platform, PointerWidth};
use nullptr_injector::process::ProcessRecord;

fn library(machine: u16, magic: u16) -> ModuleDescriptor {
    let mut bytes = vec![0u8; 64 + 26];
    bytes[0] = b'M';
    bytes[1] = b'Z';
    bytes[60] = 64;
    bytes[64..68].copy_from_slice(b"PE\0\0");
    bytes[68..70].copy_from_slice(&machine.to_le_bytes());
    bytes[84..86].copy_from_slice(&240u16.to_le_bytes());
    bytes[86..88].copy_from_slice(&0x2002u16.to_le_bytes());
    bytes[88..90].copy_from_slice(&magic.to_le_bytes());
    describe("module.dll", &FileProbe::Found { size_bytes: 90, header: bytes }).unwrap()
}

fn library_x64() -> ModuleDescriptor {
    library(0x8664, 0x020b)
}

fn library_x86() -> ModuleDescriptor {
    library(0x014c, 0x010b)
}

fn library_arm64() -> ModuleDescriptor {
    library(0xaa64, 0x020b)
}

fn process(architecture: Architecture, pointer_width: PointerWidth) -> ProcessRecord {
    ProcessRecord::new(1000, "target.exe", architecture, pointer_width)
}

fn platform(architecture: Architecture, pointer_width: PointerWidth) -> Platform {
    Platform { architecture, pointer_width }
}

#[test]
fn same_platform_is_compatible() {
    let target = process(Architecture::X64, PointerWidth::Bits64);
    assert_eq!(check(&target, &library_x64()), CompatibilityResult::Compatible);
    let target = process(Architecture::X86, PointerWidth::Bits32);
    assert_eq!(check(&target, &library_x86()), CompatibilityResult::Compatible);
    let target = process(Architecture::Arm64, PointerWidth::Bits64);
    assert_eq!(check(&target, &library_arm64()), CompatibilityResult::Compatible);
}

#[test]
fn wide_module_in_narrow_process_is_a_mismatch() {
    let target = process(Architecture::X86, PointerWidth::Bits32);
    let verdict = check(&target, &library_x64());
    assert_eq!(
        verdict,
        CompatibilityResult::ArchitectureMismatch {
            expected: platform(Architecture::X86, PointerWidth::Bits32),
            found: platform(Architecture::X64, PointerWidth::Bits64),
        }
    );
    match verdict {
        CompatibilityResult::ArchitectureMismatch { expected, found } => {
            assert_eq!(expected.pointer_width.bits(), 32);
            assert_eq!(found.pointer_width.bits(), 64);
        }
        other => panic!("unexpected verdict {:?}", other),
    }
}

#[test]
fn narrow_module_in_wide_process_is_a_mismatch() {
    let target = process(Architecture::X64, PointerWidth::Bits64);
    assert_eq!(
        check(&target, &library_x86()),
        CompatibilityResult::ArchitectureMismatch {
            expected: platform(Architecture::X64, PointerWidth::Bits64),
            found: platform(Architecture::X86, PointerWidth::Bits32),
        }
    );
}

#[test]
fn every_width_mismatch_is_refused() {
    let architectures = [
        Architecture::X86,
        Architecture::X64,
        Architecture::Arm,
        Architecture::Arm64,
        Architecture::Unknown,
    ];
    for architecture in architectures {
        let target = process(architecture, PointerWidth::Bits32);
        for module in [library_x64(), library_arm64()] {
            assert_eq!(
                check(&target, &module),
                CompatibilityResult::ArchitectureMismatch {
                    expected: target.platform(),
                    found: module.platform(),
                }
            );
        }
        let target = process(architecture, PointerWidth::Bits64);
        assert_eq!(
            check(&target, &library_x86()),
            CompatibilityResult::ArchitectureMismatch {
                expected: target.platform(),
                found: library_x86().platform(),
            }
        );
    }
}

#[test]
fn same_family_and_width_is_compatible() {
    let target = process(Architecture::X64, PointerWidth::Bits32);
    assert_eq!(check(&target, &library_x86()), CompatibilityResult::Compatible);
}

#[test]
fn other_family_of_same_width_is_a_mismatch() {
    let target = process(Architecture::X64, PointerWidth::Bits64);
    assert_eq!(
        check(&target, &library_arm64()),
        CompatibilityResult::ArchitectureMismatch {
            expected: platform(Architecture::X64, PointerWidth::Bits64),
            found: platform(Architecture::Arm64, PointerWidth::Bits64),
        }
    );
}

#[test]
fn unknown_architecture_is_a_mismatch() {
    let target = process(Architecture::Unknown, PointerWidth::Bits64);
    assert_eq!(
        check(&target, &library_x64()),
        CompatibilityResult::ArchitectureMismatch {
            expected: platform(Architecture::Unknown, PointerWidth::Bits64),
            found: platform(Architecture::X64, PointerWidth::Bits64),
        }
    );
}

#[test]
fn check_on_records_never_speaks_of_the_live_process() {
    let widths = [PointerWidth::Bits32, PointerWidth::Bits64];
    for width in widths {
        for module in [library_x86(), library_x64(), library_arm64()] {
            let verdict = check(&process(Architecture::X64, width), &module);
            assert_ne!(verdict, CompatibilityResult::ProcessNotFound);
            assert_ne!(verdict, CompatibilityResult::PermissionDenied);
        }
    }
}

#[test]
fn check_is_the_same_on_every_call() {
    let target = process(Architecture::X86, PointerWidth::Bits32);
    let module = library_x64();
    assert_eq!(check(&target, &module), check(&target, &module));
}

#[test]
fn recheck_of_a_gone_process_is_not_found() {
    assert_eq!(recheck(1000, &Observation::Gone, &library_x64()), CompatibilityResult::ProcessNotFound);
}

#[test]
fn recheck_of_a_guarded_process_is_permission_denied() {
    assert_eq!(
        recheck(1000, &Observation::Denied, &library_x64()),
        CompatibilityResult::PermissionDenied
    );
}

#[test]
fn recheck_of_another_process_is_not_found() {
    let other = ProcessRecord::new(1001, "target.exe", Architecture::X64, PointerWidth::Bits64);
    assert_eq!(
        recheck(1000, &Observation::Alive(other), &library_x64()),
        CompatibilityResult::ProcessNotFound
    );
}

#[test]
fn recheck_judges_the_live_platform() {
    let live = process(Architecture::X64, PointerWidth::Bits64);
    assert_eq!(
        recheck(1000, &Observation::Alive(live), &library_x64()),
        CompatibilityResult::Compatible
    );
    let live = process(Architecture::X86, PointerWidth::Bits32);
    assert_eq!(
        recheck(1000, &Observation::Alive(live), &library_x64()),
        CompatibilityResult::ArchitectureMismatch {
            expected: platform(Architecture::X86, PointerWidth::Bits32),
            found: platform(Architecture::X64, PointerWidth::Bits64),
        }
    );
}
