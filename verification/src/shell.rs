//! Decisions of the desktop shell around the session: when the onboarding
//! window is due, and what a toggle does to a window. The shell performs
//! them; nothing here touches a window.

use vstd::prelude::*;

verus! {

/// `serde_json::Value`, the JSON value that the settings store holds. It is
/// carried through; the proofs see nothing inside it.
#[verifier::external_type_specification]
#[verifier::external_body]
pub struct ExJsonValue(serde_json::Value);

/// The boolean that a JSON value holds, `None` for a value of any other kind:
/// what `serde_json::Value::as_bool` returns.
pub uninterp spec fn json_boolean(value: serde_json::Value) -> Option<bool>;

/// `serde_json::Value::as_bool`, which returns the boolean of a JSON boolean
/// and `None` for any other value. Not proved; the contract claims only that
/// the result depends on the value alone, and gives it the name
/// `json_boolean`.
#[verifier::external_body]
fn json_as_bool(value: &serde_json::Value) -> (flag: Option<bool>)
    ensures
        flag == json_boolean(*value),
{
    value.as_bool()
}

/// `serde_json::Value::from` on a `bool`, which builds the JSON boolean
/// `flag`. Not proved; the contract claims that `as_bool` reads the result
/// back as `Some(flag)`.
#[verifier::external_body]
fn json_from_bool(flag: bool) -> (value: serde_json::Value)
    ensures
        json_boolean(value) == Some(flag),
{
    serde_json::Value::from(flag)
}

/// What the shell does with a window.
#[derive(Clone, Copy, Debug, PartialEq, Eq, Structural)]
pub enum WindowAction {
    /// Leave the window as it is.
    Nothing,
    /// Hide the window.
    Hide,
    /// Show the window and give it the focus.
    ShowAndFocus,
    /// Give the window the focus.
    Focus,
    /// Build the window.
    Create,
}

/// The first-run flag of the settings store: `true` while nothing is stored,
/// else the boolean stored. `None` if what is stored is no boolean.
pub fn first_run(stored: Option<&serde_json::Value>) -> (flag: Option<bool>)
    ensures
        flag == (match stored {
            Some(value) => json_boolean(*value),
            None => Some(true),
        }),
{
    match stored {
        Some(value) => json_as_bool(value),
        None => Some(true),
    }
}

/// The value to store under the first-run flag once onboarding was shown.
pub fn first_run_done() -> (value: serde_json::Value)
    ensures
        json_boolean(value) == Some(false),
{
    json_from_bool(false)
}

/// Whether the onboarding window is due at startup: on the first run, and
/// whenever screen recording is not permitted.
pub fn needs_onboarding(first_run: bool, has_permission: bool) -> (due: bool)
    ensures
        due == (first_run || !has_permission),
{
    first_run || !has_permission
}

/// What opening the onboarding does. `window` is `None` if the window does
/// not exist, else whether it is visible: a missing window is built, a visible
/// one gets the focus, a hidden one is left alone.
pub fn open_onboarding(window: Option<bool>) -> (action: WindowAction)
    ensures
        action == (match window {
            None => WindowAction::Create,
            Some(true) => WindowAction::Focus,
            Some(false) => WindowAction::Nothing,
        }),
{
    match window {
        None => WindowAction::Create,
        Some(true) => WindowAction::Focus,
        Some(false) => WindowAction::Nothing,
    }
}

/// What the shortcut does to the selection overlay: a visible overlay is
/// hidden, a hidden one is shown and focused.
pub fn toggle_cropper(visible: bool) -> (action: WindowAction)
    ensures
        action == (if visible {
            WindowAction::Hide
        } else {
            WindowAction::ShowAndFocus
        }),
{
    if visible {
        WindowAction::Hide
    } else {
        WindowAction::ShowAndFocus
    }
}

} // verus!
