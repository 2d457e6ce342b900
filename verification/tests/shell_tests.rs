use helmer_micro::shell::{
    first_run, first_run_done, needs_onboarding, open_onboarding, toggle_cropper, WindowAction,
};
use serde_json::{Number, Value};

#[test]
fn first_run_defaults_to_true() {
    assert_eq!(first_run(None), Some(true));
}

#[test]
fn first_run_reads_the_stored_boolean() {
    assert_eq!(first_run(Some(&Value::Bool(false))), Some(false));
    assert_eq!(first_run(Some(&Value::Bool(true))), Some(true));
}

#[test]
fn first_run_of_another_kind_of_value_is_none() {
    assert_eq!(first_run(Some(&Value::Null)), None);
    assert_eq!(first_run(Some(&Value::String(String::from("false")))), None);
    assert_eq!(first_run(Some(&Value::Number(Number::from(0u8)))), None);
}

#[test]
fn first_run_done_stores_false() {
    assert_eq!(first_run_done(), Value::Bool(false));
    assert_eq!(first_run(Some(&first_run_done())), Some(false));
}

#[test]
fn onboarding_is_due_on_first_run_or_without_permission() {
    assert!(needs_onboarding(true, true));
    assert!(needs_onboarding(true, false));
    assert!(needs_onboarding(false, false));
    assert!(!needs_onboarding(false, true));
}

#[test]
fn open_onboarding_builds_focuses_or_leaves() {
    assert_eq!(open_onboarding(None), WindowAction::Create);
    assert_eq!(open_onboarding(Some(true)), WindowAction::Focus);
    assert_eq!(open_onboarding(Some(false)), WindowAction::Nothing);
}

#[test]
fn toggle_hides_a_visible_overlay_and_shows_a_hidden_one() {
    assert_eq!(toggle_cropper(true), WindowAction::Hide);
    assert_eq!(toggle_cropper(false), WindowAction::ShowAndFocus);
}
