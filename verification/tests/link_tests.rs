use trace_host::errors::HostError;
use trace_host::guest::GuestScript;
use trace_host::link::{
    instantiate_pre, my_add_to_linker, new_trace_linker, offers_import, BinarySurface,
    CapabilityImport, GuestBinary,
};

fn trace_imports() -> Vec<CapabilityImport> {
    vec![
        CapabilityImport::TraceLog,
        CapabilityImport::Queue,
        CapabilityImport::ReqResource,
    ]
}

#[test]
fn trace_linker_offers_the_contract() {
    let l = new_trace_linker();
    assert!(offers_import(&l, CapabilityImport::TraceLog));
    assert!(offers_import(&l, CapabilityImport::Queue));
    assert!(offers_import(&l, CapabilityImport::ReqResource));
    assert!(!offers_import(&l, CapabilityImport::Wasi));
    assert!(!offers_import(&l, CapabilityImport::Unknown(7)));
}

#[test]
fn add_to_linker_offers_ambient_imports() {
    let mut l = new_trace_linker();
    my_add_to_linker(&mut l);
    assert!(offers_import(&l, CapabilityImport::Wasi));
}

#[test]
fn conforming_binary_links() {
    let l = new_trace_linker();
    let b = GuestBinary {
        surface: BinarySurface { exports_enter: true, imports: trace_imports() },
        script: GuestScript::TraceLoop,
    };
    let plan = instantiate_pre(&l, b).unwrap();
    assert_eq!(plan.binary.surface.imports, trace_imports());
}

#[test]
fn missing_entry_point_is_link_error() {
    let l = new_trace_linker();
    let b = GuestBinary {
        surface: BinarySurface { exports_enter: false, imports: trace_imports() },
        script: GuestScript::TraceLoop,
    };
    assert!(matches!(instantiate_pre(&l, b), Err(HostError::LinkError)));
}

#[test]
fn unsanctioned_import_is_link_error() {
    let l = new_trace_linker();
    let mut imports = trace_imports();
    imports.push(CapabilityImport::Unknown(42));
    let b = GuestBinary {
        surface: BinarySurface { exports_enter: true, imports },
        script: GuestScript::TraceLoop,
    };
    assert!(matches!(instantiate_pre(&l, b), Err(HostError::LinkError)));
}

#[test]
fn ambient_import_needs_the_ambient_group() {
    let mut imports = trace_imports();
    imports.push(CapabilityImport::Wasi);
    let bare = new_trace_linker();
    let b = GuestBinary {
        surface: BinarySurface { exports_enter: true, imports: imports.clone() },
        script: GuestScript::TraceLoop,
    };
    assert!(matches!(instantiate_pre(&bare, b), Err(HostError::LinkError)));

    let mut full = new_trace_linker();
    my_add_to_linker(&mut full);
    let b2 = GuestBinary {
        surface: BinarySurface { exports_enter: true, imports },
        script: GuestScript::TraceLoop,
    };
    assert!(instantiate_pre(&full, b2).is_ok());
}

#[test]
fn empty_import_surface_links() {
    let l = new_trace_linker();
    let b = GuestBinary {
        surface: BinarySurface { exports_enter: true, imports: Vec::new() },
        script: GuestScript::BusyLoop,
    };
    assert!(instantiate_pre(&l, b).is_ok());
}
