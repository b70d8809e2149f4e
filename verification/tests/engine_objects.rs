use hachimi::il2cpp::hook::LibNative_Runtime::Sqlite3::Query::{
    escape_newlines, query_log_text, resolve_query_text,
};
use hachimi::il2cpp::hook::UnityEngine_CoreModule::Object::is_option_dialog_clone;
use hachimi::il2cpp::hook::UnityEngine_CoreModule::RectTransform::Axis;
use hachimi::text::{str_contains, to_owned_string};

#[test]
fn axis_numbers() {
    assert_eq!(Axis::Horizontal.value(), 0);
    assert_eq!(Axis::Vertical.value(), 1);
    assert_eq!(Axis::from_value(1), Some(Axis::Vertical));
    assert_eq!(Axis::from_value(2), None);
    for a in [Axis::Horizontal, Axis::Vertical] {
        assert_eq!(Axis::from_value(a.value()), Some(a));
    }
}

#[test]
fn option_dialog_clones() {
    assert!(is_option_dialog_clone("DialogOptionHome(Clone)"));
    assert!(!is_option_dialog_clone("DialogOption"));
    assert!(!is_option_dialog_clone(""));
}

#[test]
fn query_text_resolution() {
    assert_eq!(resolve_query_text(true, Some(2), 1), 2);
    assert_eq!(resolve_query_text(true, None, 1), 1);
    assert_eq!(resolve_query_text(false, Some(2), 1), 1);
}

#[test]
fn query_log_lines() {
    assert_eq!(escape_newlines("a\nb\r"), "a\\nb\r");
    assert_eq!(query_log_text("a\nb", true), "a\\nb");
    assert_eq!(query_log_text("a\nb", false), "a\nb");
}

#[test]
fn string_helpers() {
    assert!(str_contains("abcdef", "cde"));
    assert!(str_contains("abc", ""));
    assert!(!str_contains("ab", "abc"));
    assert_eq!(to_owned_string("x"), "x");
}
