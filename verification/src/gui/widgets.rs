//! The actions of the context menu of an entry.
use vstd::prelude::*;
use crate::gui::command::Cmd;

verus! {

/// What the user picked in the context menu of an entry.
#[derive(Clone, Copy, PartialEq, Eq, Structural, Debug)]
pub enum EntryMenuAction {
    Copy,
    Edit,
    Remove,
}

/// The command a context-menu pick on the entry at `idx` asks for: editing or removing that
/// entry; copying asks for none (the user interface copies the text itself).
pub fn menu_command(action: EntryMenuAction, idx: usize) -> (r: Option<Cmd>)
    ensures
        action == EntryMenuAction::Copy ==> r is None,
        action == EntryMenuAction::Edit ==> r == Some(Cmd::EditorUpdate(idx)),
        action == EntryMenuAction::Remove ==> r == Some(Cmd::RemoveEntry(idx)),
{
    match action {
        EntryMenuAction::Copy => None,
        EntryMenuAction::Edit => Some(Cmd::EditorUpdate(idx)),
        EntryMenuAction::Remove => Some(Cmd::RemoveEntry(idx)),
    }
}

} // verus!
