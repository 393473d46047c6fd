use nullptr_injector::attempt::{prepare, Refusal};
use nullptr_injector::compat::CompatibilityResult;
use nullptr_injector::engine::{Action, Event, Stage};
use nullptr_injector::module::{FileProbe, ModuleError};
use nullptr_injector::platform::{Architecture, Platform, PointerWidth};
use nullptr_injector::process::ProcessRecord;
use nullptr_injector::resolver::{SelectionMethod, TargetError};

fn library(machine: u16, magic: u16) -> FileProbe {
    let mut bytes = vec![0u8; 64 + 26];
    bytes[0] = b'M';
    bytes[1] = b'Z';
    bytes[60] = 64;
    bytes[64..68].copy_from_slice(b"PE\0\0");
    bytes[68..70].copy_from_slice(&machine.to_le_bytes());
    bytes[84..86].copy_from_slice(&240u16.to_le_bytes());
    bytes[86..88].copy_from_slice(&0x2002u16.to_le_bytes());
    bytes[88..90].copy_from_slice(&magic.to_le_bytes());
    FileProbe::Found { size_bytes: 4096, header: bytes }
}

fn library_x64() -> FileProbe {
    library(0x8664, 0x020b)
}

fn processes() -> Vec<ProcessRecord> {
    vec![
        ProcessRecord::new(4, "System", Architecture::X64, PointerWidth::Bits64),
        ProcessRecord::new(200, "notepad", Architecture::X64, PointerWidth::Bits64),
        ProcessRecord::new(100, "notepad", Architecture::X64, PointerWidth::Bits64),
        ProcessRecord::new(300, "legacy", Architecture::X86, PointerWidth::Bits32),
    ]
}

fn by_name(name: &str) -> SelectionMethod {
    SelectionMethod::ByProcessName(name.to_string())
}

#[test]
fn prepares_an_attempt_on_a_compatible_pair() {
    let injection =
        prepare(&by_name("notepad"), &processes(), "C:\\m\\x.dll", &library_x64(), 2500).unwrap();
    assert_eq!(injection.stage(), Stage::Idle);
    assert_eq!(injection.held(), 0);
    assert_eq!(injection.outcome(), None);
    assert_eq!(injection.timeout_ms(), 2500);
    assert_eq!(injection.target().process_id, 100);
    assert_eq!(injection.target().name, "notepad");
    assert_eq!(injection.module().file_path(), "C:\\m\\x.dll");
    assert_eq!(injection.module().size_bytes(), 4096);
    assert_eq!(injection.module().architecture(), Architecture::X64);
    let (_, action) = injection.step(Event::Start);
    assert_eq!(action, Some(Action::QueryTarget { process_id: 100 }));
}

#[test]
fn unresolved_target_is_the_first_refusal() {
    let refused =
        prepare(&by_name("nobody"), &processes(), "x.dll", &FileProbe::Missing, 1).unwrap_err();
    assert_eq!(refused, Refusal::Target(TargetError::NotFound));
    let text = SelectionMethod::ByPIDInput("four".to_string());
    let refused = prepare(&text, &processes(), "x.dll", &library(0x0200, 0), 1).unwrap_err();
    assert_eq!(refused, Refusal::Target(TargetError::InvalidInput));
}

#[test]
fn module_that_cannot_be_described_is_the_second_refusal() {
    let pick = SelectionMethod::ByPID(300);
    let refused = prepare(&pick, &processes(), "x.dll", &FileProbe::Missing, 1).unwrap_err();
    assert_eq!(refused, Refusal::Module(ModuleError::NotFound));
    let refused = prepare(&pick, &processes(), "x.dll", &library(0x0200, 0x020b), 1).unwrap_err();
    assert_eq!(refused, Refusal::Module(ModuleError::UnsupportedArchitecture));
    let garbage = FileProbe::Found { size_bytes: 3, header: vec![1, 2, 3] };
    let refused = prepare(&pick, &processes(), "x.dll", &garbage, 1).unwrap_err();
    assert_eq!(refused, Refusal::Module(ModuleError::NotAModule));
}

#[test]
fn pair_that_does_not_fit_is_the_third_refusal() {
    let pick = SelectionMethod::ByPID(300);
    let refused = prepare(&pick, &processes(), "x.dll", &library_x64(), 1).unwrap_err();
    assert_eq!(
        refused,
        Refusal::Incompatible(CompatibilityResult::ArchitectureMismatch {
            expected: Platform {
                architecture: Architecture::X86,
                pointer_width: PointerWidth::Bits32
            },
            found: Platform { architecture: Architecture::X64, pointer_width: PointerWidth::Bits64 },
        })
    );
    let pick = SelectionMethod::ByPID(4);
    let refused = prepare(&pick, &processes(), "x.dll", &library(0x014c, 0x010b), 1).unwrap_err();
    assert!(matches!(
        refused,
        Refusal::Incompatible(CompatibilityResult::ArchitectureMismatch { .. })
    ));
}

#[test]
fn preparation_asks_nothing_of_the_target() {
    let injection =
        prepare(&SelectionMethod::ByPID(4), &processes(), "x.dll", &library_x64(), 1).unwrap();
    assert_eq!(injection.pending(), None);
    assert_eq!(injection.stage(), Stage::Idle);
}
