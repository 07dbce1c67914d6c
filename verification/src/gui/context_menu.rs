//! Explorer context-menu registration dialog: the decisions inside
//! `GUI_ContextMenu` (UniExtract.au3:7038-7141), `GUI_ContextMenu_ChangePic`
//! (7144-7147), `GUI_ContextMenu_OK` (7150-7213) and
//! `GUI_ContextMenu_activate` (7216-7234). Elevation is an input, not
//! something requested here.
use vstd::prelude::*;
use crate::text::str_equal;

verus! {

/// The result of scanning every shell verb's registration state when the
/// dialog opens (UniExtract.au3:7084-7097 and 7102-7115).
#[derive(Debug, Clone, PartialEq, Eq)]
pub struct ShellRegistrationScan {
    /// Any verb is registered in either scope.
    pub enabled: bool,
    /// The scope of the *last* registered verb in scan order: the
    /// checkbox is overwritten for every match, all-users first and then
    /// per-user, so a per-user registration of the last matching verb
    /// wins.
    pub all_users: bool,
    /// Per-verb checked state, in input order.
    pub checked_verbs: Vec<bool>,
}

/// Some verb of `regs` is registered in either scope.
pub open spec fn scan_enabled(regs: Seq<(bool, bool)>) -> bool
    decreases regs.len(),
{
    regs.len() > 0 && (scan_enabled(regs.drop_last()) || regs.last().0 || regs.last().1)
}

/// The all-users checkbox after scanning `regs` in order.
pub open spec fn scan_all_users(regs: Seq<(bool, bool)>) -> bool
    decreases regs.len(),
{
    if regs.len() == 0 {
        false
    } else if regs.last().1 {
        false
    } else if regs.last().0 {
        true
    } else {
        scan_all_users(regs.drop_last())
    }
}

/// The per-verb scan loop (UniExtract.au3:7084-7097, 7102-7115).
/// `registrations[i]` is `(all_users_registered, per_user_registered)`
/// for verb `i`, both read by the caller from the registry.
pub fn resolve_shell_registration_scan(registrations: &[(bool, bool)]) -> (r: ShellRegistrationScan)
    ensures
        r.enabled == scan_enabled(registrations@),
        r.all_users == scan_all_users(registrations@),
        r.checked_verbs@.len() == registrations@.len(),
        forall|i: int| 0 <= i < registrations@.len() ==> #[trigger] r.checked_verbs@[i] == (registrations@[i].0 || registrations@[i].1),
{
    let mut enabled = false;
    let mut all_users = false;
    let mut checked_verbs: Vec<bool> = Vec::new();
    let mut i: usize = 0;
    while i < registrations.len()
        invariant
            i <= registrations.len(),
            enabled == scan_enabled(registrations@.take(i as int)),
            all_users == scan_all_users(registrations@.take(i as int)),
            checked_verbs@.len() == i,
            forall|k: int| 0 <= k < i ==> #[trigger] checked_verbs@[k] == (registrations@[k].0 || registrations@[k].1),
        decreases registrations.len() - i,
    {
        let (a, p) = registrations[i];
        proof {
            assert(registrations@.take(i + 1).drop_last() =~= registrations@.take(i as int));
        }
        if a {
            all_users = true;
            enabled = true;
        }
        if p {
            all_users = false;
            enabled = true;
        }
        checked_verbs.push(a || p);
        proof {
            assert(registrations@[i as int] == (a, p));
        }
        i += 1;
    }
    assert(registrations@.take(registrations@.len() as int) =~= registrations@);
    ShellRegistrationScan { enabled, all_users, checked_verbs }
}

/// The picture asset for the chosen menu style (UniExtract.au3:7145).
pub fn resolve_context_menu_picture_filename(cascading_checked: bool) -> (r: &'static str)
    ensures
        r@ == (if cascading_checked { "ContextMenu_Cascading.png"@ } else { "ContextMenu_Simple.png"@ }),
{
    if cascading_checked {
        "ContextMenu_Cascading.png"
    } else {
        "ContextMenu_Simple.png"
    }
}

/// "Enabling with no verb checked checks every verb"
/// (UniExtract.au3:7224 and 7161).
pub fn should_force_check_all_verbs(enabled: bool, any_verb_checked: bool) -> (r: bool)
    ensures
        r == (enabled && !any_verb_checked),
{
    enabled && !any_verb_checked
}

/// Each control's state after `GUI_ContextMenu_activate`; `None` marks a
/// control left untouched (the all-users boxes without admin rights, the
/// cascading radio before Windows 7).
#[derive(Debug, Clone, PartialEq, Eq)]
pub struct ActivateResult {
    pub allusers_checkbox_enabled: Option<bool>,
    pub simple_radio_enabled: bool,
    pub verb_checkboxes_enabled: bool,
    pub force_check_all_verbs: bool,
    pub cascading_radio_enabled: Option<bool>,
    pub allusers2_checkbox_enabled: Option<bool>,
    pub add_input_enabled: bool,
}

/// `GUI_ContextMenu_activate` (UniExtract.au3:7216-7234).
/// `any_verb_checked` is the verb boxes' checked state before the call.
pub fn resolve_context_menu_activate(
    enabled_checked: bool,
    is_admin: bool,
    is_win7_or_newer: bool,
    any_verb_checked: bool,
    add_assoc_checked: bool,
) -> (r: ActivateResult)
    ensures
        r.allusers_checkbox_enabled == (if is_admin { Some(enabled_checked) } else { None }),
        r.simple_radio_enabled == enabled_checked,
        r.verb_checkboxes_enabled == enabled_checked,
        r.force_check_all_verbs == (enabled_checked && !any_verb_checked),
        r.cascading_radio_enabled == (if is_win7_or_newer { Some(enabled_checked) } else { None }),
        r.allusers2_checkbox_enabled == (if !is_admin {
            None
        } else {
            Some(add_assoc_checked)
        }),
        r.add_input_enabled == add_assoc_checked,
{
    ActivateResult {
        allusers_checkbox_enabled: if is_admin {
            Some(enabled_checked)
        } else {
            None
        },
        simple_radio_enabled: enabled_checked,
        verb_checkboxes_enabled: enabled_checked,
        force_check_all_verbs: should_force_check_all_verbs(enabled_checked, any_verb_checked),
        cascading_radio_enabled: if is_win7_or_newer {
            Some(enabled_checked)
        } else {
            None
        },
        allusers2_checkbox_enabled: if is_admin {
            Some(add_assoc_checked)
        } else {
            None
        },
        add_input_enabled: add_assoc_checked,
    }
}

/// Which registry subtree the checked style writes to
/// (UniExtract.au3:7168,7184).
#[derive(Debug, Clone, Copy, PartialEq, Eq, Structural)]
pub enum RegistrationMode {
    Simple,
    Cascading,
    /// Neither style applies (the source's no-match case).
    Neither,
}

/// Simple wins when checked; cascading needs Windows 7 or newer; else
/// none (UniExtract.au3:7168-7184).
pub fn resolve_registration_mode(is_win7_or_newer: bool, simple_checked: bool, cascading_checked: bool) -> (r: RegistrationMode)
    ensures
        r == (if simple_checked {
            RegistrationMode::Simple
        } else if is_win7_or_newer && cascading_checked {
            RegistrationMode::Cascading
        } else {
            RegistrationMode::Neither
        }),
{
    if simple_checked {
        RegistrationMode::Simple
    } else if is_win7_or_newer && cascading_checked {
        RegistrationMode::Cascading
    } else {
        RegistrationMode::Neither
    }
}

/// An empty extension list forces the "add file association" box off
/// (UniExtract.au3:7205).
pub fn resolve_add_checkbox_state(raw_checked: bool, input_is_empty: bool) -> (r: bool)
    ensures
        r == (raw_checked && !input_is_empty),
{
    raw_checked && !input_is_empty
}

/// A new file association is applied only once the dangerous-action
/// prompt is confirmed, and only when it was not enabled before or the
/// extension list changed (UniExtract.au3:7207-7208).
pub fn should_apply_file_assoc_after_confirmation(
    user_confirmed_dangerous_prompt: bool,
    was_previously_enabled: bool,
    stored_assoc: &str,
    current_input: &str,
) -> (r: bool)
    ensures
        r == (user_confirmed_dangerous_prompt && (!was_previously_enabled || stored_assoc@ != current_input@)),
{
    user_confirmed_dangerous_prompt && (!was_previously_enabled || !str_equal(stored_assoc, current_input))
}

/// An unchecked box removes only an association that was enabled before
/// (UniExtract.au3:7209-7210).
pub fn should_remove_file_assoc(add_checkbox_effective_checked: bool, was_previously_enabled: bool) -> (r: bool)
    ensures
        r == (!add_checkbox_effective_checked && was_previously_enabled),
{
    !add_checkbox_effective_checked && was_previously_enabled
}

} // verus!
