use pinote::shortcut::{
    load_toggle_window_shortcut, parse_stored_settings, resolve_toggle_shortcut, StoredSettings,
    StoredShortcuts,
};

fn resolved(content: Option<&str>) -> String {
    resolve_toggle_shortcut(load_toggle_window_shortcut(content))
}

#[test]
fn missing_file_resolves_to_default() {
    assert_eq!(resolved(None), "Alt+N");
}

#[test]
fn empty_object_resolves_to_default() {
    assert_eq!(resolved(Some("{}")), "Alt+N");
}

#[test]
fn missing_toggle_window_field_resolves_to_default() {
    assert_eq!(resolved(Some(r#"{"shortcuts":{}}"#)), "Alt+N");
}

#[test]
fn null_shortcuts_resolves_to_default() {
    assert_eq!(resolved(Some(r#"{"shortcuts":null}"#)), "Alt+N");
}

#[test]
fn null_toggle_window_resolves_to_default() {
    assert_eq!(resolved(Some(r#"{"shortcuts":{"toggleWindow":null}}"#)), "Alt+N");
}

#[test]
fn malformed_document_resolves_to_default() {
    assert_eq!(resolved(Some(r#"{"shortcuts":"#)), "Alt+N");
    assert_eq!(resolved(Some("")), "Alt+N");
    assert_eq!(resolved(Some("not json at all")), "Alt+N");
}

#[test]
fn non_object_document_resolves_to_default() {
    assert_eq!(resolved(Some("[1,2,3]")), "Alt+N");
    assert_eq!(resolved(Some("42")), "Alt+N");
}

#[test]
fn wrong_typed_fields_resolve_to_default() {
    assert_eq!(resolved(Some(r#"{"shortcuts":17}"#)), "Alt+N");
    assert_eq!(resolved(Some(r#"{"shortcuts":{"toggleWindow":17}}"#)), "Alt+N");
}

#[test]
fn stored_toggle_window_wins() {
    assert_eq!(
        resolved(Some(r#"{"shortcuts":{"toggleWindow":"Ctrl+Shift+P"}}"#)),
        "Ctrl+Shift+P"
    );
}

#[test]
fn unknown_fields_are_ignored() {
    assert_eq!(
        resolved(Some(
            r#"{"other":true,"shortcuts":{"toggleWindow":"Alt+P","extra":1}}"#
        )),
        "Alt+P"
    );
}

#[test]
fn decoded_document_shape_is_kept() {
    let st = parse_stored_settings(r#"{"shortcuts":{"toggleWindow":"Alt+X"}}"#).unwrap();
    match st.shortcuts {
        Some(StoredShortcuts { toggle_window: Some(t) }) => assert_eq!(t, "Alt+X"),
        _ => panic!("expected a stored toggleWindow entry"),
    }
    let st = parse_stored_settings("{}").unwrap();
    assert!(st.shortcuts.is_none());
    assert!(parse_stored_settings("[]").is_none());
}

#[test]
fn resolve_uses_loaded_value_verbatim() {
    assert_eq!(resolve_toggle_shortcut(Some("Ctrl+Shift+P".to_owned())), "Ctrl+Shift+P");
    assert_eq!(resolve_toggle_shortcut(None), "Alt+N");
}

#[test]
fn toggle_window_entry_flattens_the_document() {
    let st = StoredSettings {
        shortcuts: Some(StoredShortcuts { toggle_window: Some("Alt+Q".to_owned()) }),
    };
    assert_eq!(st.toggle_window_entry(), Some("Alt+Q".to_owned()));
    let st = StoredSettings { shortcuts: Some(StoredShortcuts { toggle_window: None }) };
    assert_eq!(st.toggle_window_entry(), None);
    let st = StoredSettings { shortcuts: None };
    assert_eq!(st.toggle_window_entry(), None);
}
