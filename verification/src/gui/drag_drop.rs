//! Drag-and-drop handling: the decisions of `GUI_Drop`
//! (UniExtract.au3:6710-6732). The OS drop event itself is the toolkit's.
use vstd::prelude::*;
use crate::text::owned;

verus! {

/// What to do with one dropped path (UniExtract.au3:6715-6726).
#[derive(Debug, Clone, Copy, PartialEq, Eq, Structural)]
pub enum DropAction {
    /// The path no longer exists: skip it silently.
    Skip,
    /// A directory: expand it into the batch queue.
    AddDirectory,
    /// A file, the only path dropped: fill the input fields and stop.
    PopulateOnly,
    /// A file among several dropped: fill the fields, then queue it.
    PopulateAndQueue,
}

/// The action for one path, as the per-item branch decides it.
pub open spec fn drop_action(path_exists: bool, is_directory: bool, is_only_dropped_path: bool) -> DropAction {
    if !path_exists {
        DropAction::Skip
    } else if is_directory {
        DropAction::AddDirectory
    } else if is_only_dropped_path {
        DropAction::PopulateOnly
    } else {
        DropAction::PopulateAndQueue
    }
}

/// `GUI_Drop`'s per-item dispatch (UniExtract.au3:6715-6726).
/// `is_only_dropped_path` is whether the whole drop was one path.
pub fn decide_drop_action(path_exists: bool, is_directory: bool, is_only_dropped_path: bool) -> (r: DropAction)
    ensures
        r == drop_action(path_exists, is_directory, is_only_dropped_path),
{
    if !path_exists {
        return DropAction::Skip;
    }
    if is_directory {
        return DropAction::AddDirectory;
    }
    if is_only_dropped_path {
        DropAction::PopulateOnly
    } else {
        DropAction::PopulateAndQueue
    }
}

/// One dropped path with the filesystem facts the decision needs.
#[derive(Debug, Clone, PartialEq)]
pub struct DroppedPath {
    pub path: String,
    pub exists: bool,
    pub is_directory: bool,
}

/// The decisions for the first `n` of `paths`, stopping after a
/// `PopulateOnly` (which only a one-path drop produces).
pub open spec fn drop_actions(paths: Seq<DroppedPath>, n: int) -> Seq<(Seq<char>, DropAction)>
    decreases n,
{
    if n <= 0 {
        Seq::empty()
    } else {
        let prev = drop_actions(paths, n - 1);
        if prev.len() > 0 && prev.last().1 == DropAction::PopulateOnly {
            prev
        } else {
            let p = paths[n - 1];
            prev.push((p.path@, drop_action(p.exists, p.is_directory, paths.len() == 1)))
        }
    }
}

/// `GUI_Drop`'s loop (UniExtract.au3:6713-6727): the action for each path
/// in order, stopping after a `PopulateOnly`. The actions themselves are
/// the caller's to perform.
pub fn decide_drop_actions(paths: &[DroppedPath]) -> (r: Vec<(String, DropAction)>)
    ensures
        r@.map_values(|a: (String, DropAction)| (a.0@, a.1)) == drop_actions(paths@, paths@.len() as int),
{
    let is_only_dropped_path = paths.len() == 1;
    let mut actions: Vec<(String, DropAction)> = Vec::new();
    let mut i: usize = 0;
    while i < paths.len()
        invariant
            i <= paths.len(),
            is_only_dropped_path == (paths@.len() == 1),
            actions@.map_values(|a: (String, DropAction)| (a.0@, a.1)) == drop_actions(paths@, i as int),
            actions@.len() == 0 || actions@.last().1 != DropAction::PopulateOnly,
        decreases paths.len() - i,
    {
        let item = &paths[i];
        let action = decide_drop_action(item.exists, item.is_directory, is_only_dropped_path);
        let ghost before = actions@;
        actions.push((owned(item.path.as_str()), action));
        assert(actions@.map_values(|a: (String, DropAction)| (a.0@, a.1)) =~= before.map_values(
            |a: (String, DropAction)| (a.0@, a.1),
        ).push((item.path@, action)));
        if action == DropAction::PopulateOnly {
            proof {
                lemma_drop_actions_stop(paths@, i + 1, paths@.len() as int);
            }
            return actions;
        }
        i += 1;
    }
    actions
}

proof fn lemma_drop_actions_stop(paths: Seq<DroppedPath>, k: int, m: int)
    requires
        0 < k <= m,
        drop_actions(paths, k).len() > 0,
        drop_actions(paths, k).last().1 == DropAction::PopulateOnly,
    ensures
        drop_actions(paths, m) == drop_actions(paths, k),
    decreases m - k,
{
    if m > k {
        lemma_drop_actions_stop(paths, k, m - 1);
    }
}

} // verus!
