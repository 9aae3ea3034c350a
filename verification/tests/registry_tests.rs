use sarus_bridge::errors::RegistryError;
use sarus_bridge::marshal::ParamKind;
use sarus_bridge::marshal::RetKind;
use sarus_bridge::marshal::Signature;
use sarus_bridge::registry::append_egui;
use sarus_bridge::registry::register_boundary_support;
use sarus_bridge::registry::Registry;

fn ui_text_sig(ret: RetKind) -> Signature {
    Signature { params: vec![ParamKind::UiRef, ParamKind::TextRef], ret }
}

#[test]
fn register_and_lookup() {
    let mut reg = Registry::new();
    reg.register("Ui.label".to_owned(), 0x10, ui_text_sig(RetKind::Unit)).unwrap();
    let entry = reg.lookup(&"Ui.label".to_owned()).unwrap();
    assert_eq!(entry.addr, 0x10);
    assert_eq!(entry.sig.ret, RetKind::Unit);
    assert!(reg.lookup(&"Ui.missing".to_owned()).is_none());
}

#[test]
fn duplicate_name_is_rejected() {
    let mut reg = Registry::new();
    reg.register("Ui.label".to_owned(), 0x10, ui_text_sig(RetKind::Unit)).unwrap();
    let r = reg.register("Ui.label".to_owned(), 0x20, ui_text_sig(RetKind::Unit));
    assert_eq!(r, Err(RegistryError::DuplicateName));
}

#[test]
fn unsupported_shape_is_rejected() {
    let mut reg = Registry::new();
    // a handle-returning call may take no parameters
    let bad = Signature { params: vec![ParamKind::Float], ret: RetKind::Handle };
    let r = reg.register("rogue".to_owned(), 0x30, bad);
    assert_eq!(r, Err(RegistryError::UnsupportedSignature));
    // text from the host must go with the UI context, not a bare float
    let bad2 = Signature { params: vec![ParamKind::Float, ParamKind::TextRef], ret: RetKind::Unit };
    assert_eq!(
        reg.register("rogue2".to_owned(), 0x31, bad2),
        Err(RegistryError::UnsupportedSignature)
    );
}

#[test]
fn sealed_registry_is_immutable() {
    let mut reg = Registry::new();
    reg.register("Ui.label".to_owned(), 0x10, ui_text_sig(RetKind::Unit)).unwrap();
    reg.seal();
    let r = reg.register("Ui.button".to_owned(), 0x20, ui_text_sig(RetKind::Bool));
    assert_eq!(r, Err(RegistryError::Sealed));
    // the earlier entry is untouched
    assert_eq!(reg.lookup(&"Ui.label".to_owned()).unwrap().addr, 0x10);
}

#[test]
fn append_egui_declares_the_three_ui_functions() {
    let mut reg = Registry::new();
    append_egui(&mut reg, 0x10, 0x20, 0x30).unwrap();
    assert_eq!(reg.lookup(&"Ui.label".to_owned()).unwrap().addr, 0x10);
    assert_eq!(reg.lookup(&"Ui.button".to_owned()).unwrap().addr, 0x20);
    let slider = reg.lookup(&"Ui.slider".to_owned()).unwrap();
    assert_eq!(slider.addr, 0x30);
    assert_eq!(slider.sig.ret, RetKind::Float);
    assert_eq!(slider.sig.params.len(), 5);
    assert_eq!(slider.sig.params[0], ParamKind::UiRef);
    assert_eq!(slider.sig.params[1], ParamKind::TextRef);
    assert_eq!(slider.sig.params[2], ParamKind::Float);
}

#[test]
fn append_egui_twice_is_a_duplicate() {
    let mut reg = Registry::new();
    append_egui(&mut reg, 0x10, 0x20, 0x30).unwrap();
    assert_eq!(append_egui(&mut reg, 0x11, 0x21, 0x31), Err(RegistryError::DuplicateName));
}

#[test]
fn boundary_support_declares_format_and_container_operations() {
    let mut reg = Registry::new();
    register_boundary_support(&mut reg, 0x40, 0x50, 0x60, 0x70, 0x80).unwrap();
    assert_eq!(reg.lookup(&"format".to_owned()).unwrap().addr, 0x40);
    assert_eq!(reg.lookup(&"container_create".to_owned()).unwrap().addr, 0x50);
    assert_eq!(reg.lookup(&"container_push".to_owned()).unwrap().addr, 0x60);
    let get = reg.lookup(&"container_get".to_owned()).unwrap();
    assert_eq!(get.addr, 0x70);
    assert_eq!(get.sig.params, vec![ParamKind::Handle, ParamKind::Int]);
    assert_eq!(get.sig.ret, RetKind::Float);
    assert_eq!(reg.lookup(&"container_drop".to_owned()).unwrap().addr, 0x80);
}

#[test]
fn resolve_links_every_referenced_symbol() {
    let mut reg = Registry::new();
    append_egui(&mut reg, 0x10, 0x20, 0x30).unwrap();
    reg.seal();
    let refs = vec![
        "Ui.slider".to_owned(),
        "Ui.label".to_owned(),
        "Ui.label".to_owned(),
    ];
    let addrs = reg.resolve(&refs).unwrap();
    assert_eq!(addrs, vec![0x30, 0x10, 0x10]);
}

#[test]
fn resolve_reports_the_first_unresolved_symbol() {
    let mut reg = Registry::new();
    append_egui(&mut reg, 0x10, 0x20, 0x30).unwrap();
    let refs = vec![
        "Ui.label".to_owned(),
        "Ui.spinner".to_owned(),
        "Ui.missing".to_owned(),
    ];
    let err = reg.resolve(&refs).unwrap_err();
    assert_eq!(err, "Ui.spinner");
}
