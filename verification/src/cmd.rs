//! Deferred window commands: requests collected while events are handled and
//! drained once per event-loop tick, so the window collection is never
//! mutated while it is being iterated.

use vstd::prelude::*;

verus! {

/// A deferred request to the event loop.
pub enum WindowCmd {
    /// Open a new window with the given title.
    CreateWindow(String),
}

/// The pending commands, in the order they were added.
pub struct CmdQueue {
    commands: Vec<WindowCmd>,
}

impl View for CmdQueue {
    type V = Seq<WindowCmd>;

    closed spec fn view(&self) -> Seq<WindowCmd> {
        self.commands@
    }
}

impl CmdQueue {
    /// An empty queue.
    pub fn new() -> (q: CmdQueue)
        ensures
            q@ == Seq::<WindowCmd>::empty(),
    {
        CmdQueue { commands: Vec::new() }
    }

    /// Append one command; earlier commands keep their places.
    pub fn add(&mut self, command: WindowCmd)
        ensures
            final(self)@ == old(self)@.push(command),
    {
        self.commands.push(command);
    }

    /// Take every pending command, in order, leaving the queue empty.
    pub fn drain(&mut self) -> (cmds: Vec<WindowCmd>)
        ensures
            cmds@ == old(self)@,
            final(self)@ == Seq::<WindowCmd>::empty(),
    {
        let mut cmds: Vec<WindowCmd> = Vec::new();
        core::mem::swap(&mut cmds, &mut self.commands);
        cmds
    }
}

} // verus!
