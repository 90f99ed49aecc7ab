use livi_external_ui::external_ui::{BinaryPath, ExternalUI, ExternalUIWorld, LiviExternalUIError, UiEntryInfo};
use livi_external_ui::ui::{plugin_uis, LiviUIError, UI};

const WIDGET_URI: &str = "http://kxstudio.sf.net/ns/lv2ext/external-ui#Widget";

fn external_entry(binary: &str, bundle: &str) -> UiEntryInfo {
    UiEntryInfo {
        classes: vec![WIDGET_URI.to_string()],
        uri: Some(format!("urn:ui:{binary}")),
        binary: Some(BinaryPath { _hostname: String::new(), path: binary.to_string() }),
        bundle: Some(BinaryPath { _hostname: String::new(), path: bundle.to_string() }),
    }
}

fn gtk_entry(uri: &str) -> UiEntryInfo {
    UiEntryInfo {
        classes: vec!["http://lv2plug.in/ns/extensions/ui#GtkUI".to_string()],
        uri: Some(uri.to_string()),
        binary: None,
        bundle: None,
    }
}

#[test]
fn no_declared_uis_is_empty_not_error() {
    let r = plugin_uis(None);
    assert!(matches!(r, Ok(ref v) if v.is_empty()));
}

#[test]
fn zero_entries_is_empty_not_error() {
    let r = plugin_uis(Some(Vec::new()));
    assert!(matches!(r, Ok(ref v) if v.is_empty()));
}

#[test]
fn external_entry_is_classified_external() {
    let r = plugin_uis(Some(vec![external_entry("/lib/ui.so", "/lib/ui")])).unwrap();
    assert_eq!(r.len(), 1);
    match &r[0] {
        UI::External(e) => {
            assert_eq!(e.binary.path, "/lib/ui.so");
            assert_eq!(e.bundle.path, "/lib/ui");
        }
        UI::Unsupported(_) => panic!("expected an external classification"),
    }
}

#[test]
fn other_kind_is_classified_unsupported_with_its_uri() {
    let r = plugin_uis(Some(vec![gtk_entry("urn:ui:gtk")])).unwrap();
    assert_eq!(r.len(), 1);
    assert!(matches!(&r[0], UI::Unsupported(u) if u == "urn:ui:gtk"));
}

#[test]
fn unresolvable_uri_gets_placeholder_label() {
    let mut e = gtk_entry("x");
    e.uri = None;
    let r = plugin_uis(Some(vec![e])).unwrap();
    assert!(matches!(&r[0], UI::Unsupported(u) if u == "unknown"));
}

#[test]
fn classification_is_independent_of_order_and_siblings() {
    let a = || external_entry("/a.so", "/a");
    let b = || gtk_entry("urn:ui:b");
    let ab = plugin_uis(Some(vec![a(), b()])).unwrap();
    let ba = plugin_uis(Some(vec![b(), a()])).unwrap();
    assert!(matches!(&ab[0], UI::External(e) if e.binary.path == "/a.so"));
    assert!(matches!(&ab[1], UI::Unsupported(u) if u == "urn:ui:b"));
    assert!(matches!(&ba[1], UI::External(e) if e.binary.path == "/a.so"));
    assert!(matches!(&ba[0], UI::Unsupported(u) if u == "urn:ui:b"));
}

#[test]
fn uninspectable_supported_entry_fails_the_whole_call() {
    let mut bad = external_entry("/a.so", "/a");
    bad.binary = None;
    let r = plugin_uis(Some(vec![external_entry("/ok.so", "/ok"), bad]));
    assert!(matches!(
        r,
        Err(LiviUIError::LiviExternalUIError(LiviExternalUIError::FailedToInspect))
    ));
}

#[test]
fn is_external_ui_compares_the_capability_class() {
    let world = ExternalUIWorld::new();
    assert!(ExternalUI::is_external_ui(&world, &external_entry("/a.so", "/a")));
    assert!(!ExternalUI::is_external_ui(&world, &gtk_entry("urn:ui:gtk")));
    let none = UiEntryInfo { classes: Vec::new(), uri: None, binary: None, bundle: None };
    assert!(!ExternalUI::is_external_ui(&world, &none));
}

#[test]
fn capability_class_found_among_several() {
    let world = ExternalUIWorld::new();
    let mut e = external_entry("/a.so", "/a");
    e.classes = vec![
        "http://lv2plug.in/ns/extensions/ui#UI".to_string(),
        WIDGET_URI.to_string(),
        "http://example.com/other".to_string(),
    ];
    assert!(ExternalUI::is_external_ui(&world, &e));
}

#[test]
fn world_carries_the_recognized_capability_uri() {
    let world = ExternalUIWorld::new();
    assert_eq!(world.external_ui_uri, WIDGET_URI);
}

#[test]
fn from_ui_rejects_other_kinds() {
    let world = ExternalUIWorld::new();
    let r = ExternalUI::from_ui(&world, gtk_entry("urn:ui:gtk"));
    assert!(matches!(r, Err(LiviExternalUIError::IsNotExternalUI)));
}

#[test]
fn from_ui_reports_missing_bundle_as_inspection_failure() {
    let world = ExternalUIWorld::new();
    let mut e = external_entry("/a.so", "/a");
    e.bundle = None;
    let r = ExternalUI::from_ui(&world, e);
    assert!(matches!(r, Err(LiviExternalUIError::FailedToInspect)));
}

#[test]
fn from_ui_keeps_both_paths() {
    let world = ExternalUIWorld::new();
    let e = ExternalUI::from_ui(&world, external_entry("/bin.so", "/res")).unwrap();
    assert_eq!(e.binary.path, "/bin.so");
    assert_eq!(e.bundle.path, "/res");
}
