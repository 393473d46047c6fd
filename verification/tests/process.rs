use nullptr_injector::platform::{Architecture, Platform, PointerWidth};
use nullptr_injector::process::{list_processes, ProcessRecord};

fn record(process_id: u32, name: &str) -> ProcessRecord {
    ProcessRecord::new(process_id, name, Architecture::X64, PointerWidth::Bits64)
}

#[test]
fn record_keeps_what_it_was_given() {
    let r = ProcessRecord::new(4242, "explorer.exe", Architecture::X86, PointerWidth::Bits32);
    assert_eq!(r.process_id, 4242);
    assert_eq!(r.name, "explorer.exe");
    assert_eq!(r.architecture, Architecture::X86);
    assert_eq!(r.pointer_width, PointerWidth::Bits32);
    assert_eq!(
        r.platform(),
        Platform { architecture: Architecture::X86, pointer_width: PointerWidth::Bits32 }
    );
}

#[test]
fn record_clone_is_equal() {
    let r = record(7, "svchost.exe");
    let copy = r.clone();
    assert_eq!(copy, r);
}

#[test]
fn listing_nothing_gives_nothing() {
    assert_eq!(list_processes(&[]), Vec::<ProcessRecord>::new());
}

#[test]
fn listing_keeps_every_live_process_in_order() {
    let observed = vec![Some(record(3, "c")), Some(record(1, "a")), Some(record(2, "b"))];
    let live = list_processes(&observed);
    assert_eq!(live, vec![record(3, "c"), record(1, "a"), record(2, "b")]);
}

#[test]
fn listing_skips_processes_that_exited_meanwhile() {
    let observed = vec![
        None,
        Some(record(10, "first")),
        None,
        None,
        Some(record(20, "second")),
        None,
    ];
    let live = list_processes(&observed);
    assert_eq!(live, vec![record(10, "first"), record(20, "second")]);
}

#[test]
fn listing_only_exited_processes_gives_nothing() {
    let observed: Vec<Option<ProcessRecord>> = vec![None, None, None];
    assert!(list_processes(&observed).is_empty());
}
