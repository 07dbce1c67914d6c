//! Batch queue GUI management: the Batch button's three-way
//! dispatch, the recursion preference clamp, and the queue-edit dialog's
//! decisions. Listing a directory's files is filesystem work, the
//! application's.
use vstd::prelude::*;
use crate::extract::cat3;
use crate::text::{decimal, owned, usize_to_decimal};

verus! {

/// What the overloaded Batch button does (UniExtract.au3:6586-6593).
#[derive(Debug, Clone, Copy, PartialEq, Eq, Structural)]
pub enum BatchButtonAction {
    /// `AddToBatch()` plus clearing the input fields.
    AddToQueue,
    /// `GUI_Batch_OK()`: finalize and execute the queue.
    RunQueue,
    /// The invalid-file message box.
    ShowInvalidFileError,
}

/// `GUI_Batch`'s dispatch: valid fields always add to the queue; only
/// otherwise does a non-empty queue run; with neither it is an error.
pub fn decide_batch_button_action(fields_valid: bool, queue_has_items: bool) -> (r: BatchButtonAction)
    ensures
        r == (if fields_valid {
            BatchButtonAction::AddToQueue
        } else if queue_has_items {
            BatchButtonAction::RunQueue
        } else {
            BatchButtonAction::ShowInvalidFileError
        }),
{
    if fields_valid {
        BatchButtonAction::AddToQueue
    } else if queue_has_items {
        BatchButtonAction::RunQueue
    } else {
        BatchButtonAction::ShowInvalidFileError
    }
}

/// The output-directory field is cleared on adding to the batch only when
/// it is not locked (UniExtract.au3:6588-6589).
pub fn should_clear_output_dir_on_batch_add(lock_output_directory: bool) -> (r: bool)
    ensures
        r == !lock_output_directory,
{
    !lock_output_directory
}

/// `GUI_Batch_AddDirectory`'s recursion flag (UniExtract.au3:6611-6612):
/// the preference clamped to at most `1`, then nonzero; negative values
/// are not floored.
pub fn resolve_batch_recurse(pref_value: i64) -> (r: bool)
    ensures
        r == ((if pref_value < 1 { pref_value } else { 1 }) != 0),
{
    let clamped = if pref_value < 1 {
        pref_value
    } else {
        1
    };
    clamped != 0
}

/// Accepting the edited queue disables batch mode when it has been
/// emptied (UniExtract.au3:6659-6662).
pub fn should_disable_batch_mode_on_ok(queue_len: usize) -> (r: bool)
    ensures
        r == (queue_len < 1),
{
    queue_len < 1
}

/// The Delete button (UniExtract.au3:6668-6672): removes the selected row
/// only when `index` is a valid position, and reports whether it did.
pub fn delete_queue_item(queue: &mut Vec<String>, index: i64) -> (r: bool)
    ensures
        r == (0 <= index < old(queue)@.len()),
        r ==> final(queue)@ == old(queue)@.remove(index as int),
        !r ==> final(queue)@ == old(queue)@,
{
    if index < 0 {
        return false;
    }
    if index as u64 >= queue.len() as u64 {
        return false;
    }
    let i = index as usize;
    queue.remove(i);
    true
}

/// A queue entry gets a full-text tooltip only when longer than the 72
/// characters the list shows (UniExtract.au3:6682).
pub fn should_show_full_text_tooltip(text_len: usize) -> (r: bool)
    ensures
        r == (text_len > 72),
{
    text_len > 72
}

/// The Batch button's text (`GetBatchQueue`, UniExtract.au3:4427:
/// `t('BATCH_BUT') & " (" & $iSize & ")"`): `Batch`, followed by the
/// queue's size in brackets when it is not empty.
pub fn batch_button_label(queue_len: usize) -> (r: String)
    ensures
        r@ == (if queue_len == 0 {
            "Batch"@
        } else {
            "Batch ("@ + decimal(queue_len as nat) + ")"@
        }),
{
    if queue_len == 0 {
        owned("Batch")
    } else {
        let n = usize_to_decimal(queue_len);
        cat3("Batch (", n.as_str(), ")")
    }
}

} // verus!
