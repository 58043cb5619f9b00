//! The command the user asked for during a frame, run at the start of the next one.
use vstd::prelude::*;

verus! {

/// What the user asked the front end to do.
pub enum Cmd {
    NewEntity,
    UpdateEntity,
    RemoveEntry(usize),
    EditorNew,
    EditorUpdate(usize),
    Backup,
    Export,
    Lock,
    OpenChangePassword,
    OpenSettings,
}

/// The part of a command that is left to the program around the library: adding,
/// updating and removing entries write the vault, and backup and export write files.
#[derive(PartialEq, Eq, Structural, Debug)]
pub enum Effect {
    Add,
    Update,
    Remove(usize),
    Backup,
    Export,
}

/// What `cmd` leaves to the caller: `None` for the commands that only move the state.
pub open spec fn effect_of(cmd: Cmd) -> Option<Effect> {
    match cmd {
        Cmd::NewEntity => Some(Effect::Add),
        Cmd::UpdateEntity => Some(Effect::Update),
        Cmd::RemoveEntry(idx) => Some(Effect::Remove(idx)),
        Cmd::Backup => Some(Effect::Backup),
        Cmd::Export => Some(Effect::Export),
        Cmd::EditorNew | Cmd::EditorUpdate(_) | Cmd::Lock | Cmd::OpenChangePassword
        | Cmd::OpenSettings => None,
    }
}

/// Removal acts on the entry the user picked: removing the entry at `idx` is the one
/// command that leaves a removal to the caller, and that removal is of `idx` itself.
pub proof fn lemma_removal_keeps_picked_index(cmd: Cmd, idx: usize)
    ensures
        effect_of(Cmd::RemoveEntry(idx)) == Some(Effect::Remove(idx)),
        effect_of(cmd) == Some(Effect::Remove(idx)) <==> cmd == Cmd::RemoveEntry(idx),
{
}

/// At most one pending command.
pub struct Command(Option<Cmd>);

impl View for Command {
    type V = Option<Cmd>;

    closed spec fn view(&self) -> Option<Cmd> {
        self.0
    }
}

/// The pending command after asking for `cmd`: the first request stands until it is taken.
pub open spec fn after_set(pending: Option<Cmd>, cmd: Cmd) -> Option<Cmd> {
    match pending {
        None => Some(cmd),
        Some(c) => Some(c),
    }
}

/// The first command asked for is the one that runs: later requests before it is taken
/// are dropped, and taking it leaves nothing pending.
pub proof fn lemma_first_command_wins(first: Cmd, later: Seq<Cmd>)
    ensures
        later.fold_left(after_set(None, first), |p: Option<Cmd>, c: Cmd| after_set(p, c))
            == Some(first),
    decreases later.len(),
{
    if later.len() > 0 {
        lemma_first_command_wins(first, later.drop_last());
    }
}

impl Default for Command {
    fn default() -> (c: Command)
        ensures
            c@ is None,
    {
        Command(None)
    }
}

impl Command {
    /// Asks for `cmd`, unless a command is already pending.
    pub fn set(&mut self, cmd: Cmd)
        ensures
            final(self)@ == after_set(old(self)@, cmd),
    {
        if self.0.is_none() {
            self.0 = Some(cmd);
        }
    }

    /// Takes the pending command, leaving none.
    pub fn take(&mut self) -> (r: Option<Cmd>)
        ensures
            r == old(self)@,
            final(self)@ is None,
    {
        self.0.take()
    }
}

} // verus!
