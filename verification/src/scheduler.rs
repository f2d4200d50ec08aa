//! A small fair priority scheduler for serialized backend work.
//!
//! Work runs one command at a time. Interactive commands run before playlist loads, which
//! run before artwork loads; low-priority work waits behind them, but never for more than
//! eight foreground commands in a row. Redundant refreshes and duplicate playlist or
//! artwork loads are not queued twice.
use vstd::prelude::*;

use crate::domain::PlaylistId;
use crate::backend::{
    coalesces, coalescible_with, command_priority, spec_command_priority, BackendCommand,
    CommandPriority,
};

verus! {

/// The number of foreground commands that may run before waiting low-priority work.
pub const FAIRNESS_WINDOW: usize = 8;

/// A command waiting to run.
#[derive(Debug)]
pub struct QueuedCommand {
    pub command: BackendCommand,
}

#[derive(Debug, Default)]
pub struct CommandScheduler {
    interactive: Vec<QueuedCommand>,
    high: Vec<QueuedCommand>,
    normal: Vec<QueuedCommand>,
    low: Vec<QueuedCommand>,
    foreground_since_low: usize,
}

/// One more foreground command, saturating at the largest count.
pub open spec fn bump(n: nat) -> nat {
    if n < usize::MAX {
        n + 1
    } else {
        n
    }
}

pub open spec fn commands_of(q: Seq<QueuedCommand>) -> Seq<BackendCommand> {
    q.map_values(|c: QueuedCommand| c.command)
}

/// What queuing a command does: nothing when an equivalent command waits, otherwise the
/// command joins the back of its class.
pub open spec fn enqueue_result(old: CommandScheduler, new: CommandScheduler, command: BackendCommand) -> bool {
    &&& new.foreground_count() == old.foreground_count()
    &&& (exists|i: int| 0 <= i < old.waiting().len() && coalesces(#[trigger] old.waiting()[i], command))
        ==> new.waiting() == old.waiting() && new.low_queue() == old.low_queue()
        && new.interactive_queue() == old.interactive_queue()
        && new.high_queue() == old.high_queue()
        && new.normal_queue() == old.normal_queue()
    &&& !(exists|i: int| 0 <= i < old.waiting().len() && coalesces(#[trigger] old.waiting()[i], command))
        ==> {
        &&& new.interactive_queue() == (if spec_command_priority(command) == CommandPriority::Interactive {
            old.interactive_queue().push(command)
        } else {
            old.interactive_queue()
        })
        &&& new.high_queue() == (if spec_command_priority(command) == CommandPriority::High {
            old.high_queue().push(command)
        } else {
            old.high_queue()
        })
        &&& new.normal_queue() == (if spec_command_priority(command) == CommandPriority::Normal {
            old.normal_queue().push(command)
        } else {
            old.normal_queue()
        })
        &&& new.low_queue() == (if spec_command_priority(command) == CommandPriority::Low {
            old.low_queue().push(command)
        } else {
            old.low_queue()
        })
            }
}

impl CommandScheduler {
    pub closed spec fn interactive_queue(&self) -> Seq<BackendCommand> {
        commands_of(self.interactive@)
    }

    pub closed spec fn high_queue(&self) -> Seq<BackendCommand> {
        commands_of(self.high@)
    }

    pub closed spec fn normal_queue(&self) -> Seq<BackendCommand> {
        commands_of(self.normal@)
    }

    pub closed spec fn low_queue(&self) -> Seq<BackendCommand> {
        commands_of(self.low@)
    }

    /// Foreground commands run since low-priority work last ran.
    pub closed spec fn foreground_count(&self) -> nat {
        self.foreground_since_low as nat
    }

    /// Every waiting command, foreground classes first.
    pub open spec fn waiting(&self) -> Seq<BackendCommand> {
        self.interactive_queue() + self.high_queue() + self.normal_queue() + self.low_queue()
    }

    /// Each queue holds only commands of its class.
    pub open spec fn well_classified(&self) -> bool {
        &&& forall|i: int| 0 <= i < self.interactive_queue().len() ==> spec_command_priority(#[trigger] self.interactive_queue()[i])
            == CommandPriority::Interactive
        &&& forall|i: int| 0 <= i < self.high_queue().len() ==> spec_command_priority(#[trigger] self.high_queue()[i])
            == CommandPriority::High
        &&& forall|i: int| 0 <= i < self.normal_queue().len() ==> spec_command_priority(#[trigger] self.normal_queue()[i])
            == CommandPriority::Normal
        &&& forall|i: int| 0 <= i < self.low_queue().len() ==> spec_command_priority(#[trigger] self.low_queue()[i])
            == CommandPriority::Low
    }

    pub fn new() -> (r: Self)
        ensures
            r.waiting().len() == 0,
            r.foreground_count() == 0,
            r.well_classified(),
    {
        CommandScheduler {
            interactive: Vec::new(),
            high: Vec::new(),
            normal: Vec::new(),
            low: Vec::new(),
            foreground_since_low: 0,
        }
    }

    fn queue_has_equivalent(queue: &Vec<QueuedCommand>, command: &BackendCommand) -> (r: bool)
        ensures
            r == exists|i: int| 0 <= i < queue@.len() && coalesces(#[trigger] queue@[i].command, *command),
    {
        let mut i: usize = 0;
        while i < queue.len()
            invariant
                i <= queue@.len(),
                forall|k: int| 0 <= k < i ==> !coalesces(#[trigger] queue@[k].command, *command),
            decreases queue.len() - i,
        {
            if coalescible_with(&queue[i].command, command) {
                return true;
            }
            i = i + 1;
        }
        false
    }

    /// Whether some waiting command makes `command` redundant.
    pub fn contains_equivalent_coalescible(&self, command: &BackendCommand) -> (r: bool)
        ensures
            r == exists|i: int| 0 <= i < self.waiting().len() && coalesces(#[trigger] self.waiting()[i], *command),
    {
        let a = Self::queue_has_equivalent(&self.interactive, command);
        let b = Self::queue_has_equivalent(&self.high, command);
        let c = Self::queue_has_equivalent(&self.normal, command);
        let d = Self::queue_has_equivalent(&self.low, command);
        proof {
            let w = self.waiting();
            let n1 = self.interactive@.len() as int;
            let n2 = n1 + self.high@.len();
            let n3 = n2 + self.normal@.len();
            if a || b || c || d {
                if a {
                    let i = choose|i: int| 0 <= i < self.interactive@.len() && coalesces(#[trigger] self.interactive@[i].command, *command);
                    assert(w[i] == self.interactive@[i].command);
                } else if b {
                    let i = choose|i: int| 0 <= i < self.high@.len() && coalesces(#[trigger] self.high@[i].command, *command);
                    assert(w[n1 + i] == self.high@[i].command);
                } else if c {
                    let i = choose|i: int| 0 <= i < self.normal@.len() && coalesces(#[trigger] self.normal@[i].command, *command);
                    assert(w[n2 + i] == self.normal@[i].command);
                } else {
                    let i = choose|i: int| 0 <= i < self.low@.len() && coalesces(#[trigger] self.low@[i].command, *command);
                    assert(w[n3 + i] == self.low@[i].command);
                }
            } else {
                assert forall|i: int| 0 <= i < w.len() implies !coalesces(#[trigger] w[i], *command) by {
                    if i < n1 {
                        assert(w[i] == self.interactive@[i].command);
                    } else if i < n2 {
                        assert(w[i] == self.high@[i - n1].command);
                    } else if i < n3 {
                        assert(w[i] == self.normal@[i - n2].command);
                    } else {
                        assert(w[i] == self.low@[i - n3].command);
                    }
                }
            }
        }
        a || b || c || d
    }

    /// Queues `command` at the back of its class, unless an equivalent command is waiting.
    pub fn enqueue(&mut self, command: BackendCommand)
        requires
            old(self).well_classified(),
        ensures
            final(self).well_classified(),
            enqueue_result(*old(self), *final(self), command),
    {
        if self.contains_equivalent_coalescible(&command) {
            return;
        }
        let priority = command_priority(&command);
        let ghost c = command;
        let queued = QueuedCommand { command };
        match priority {
            CommandPriority::Interactive => self.interactive.push(queued),
            CommandPriority::High => self.high.push(queued),
            CommandPriority::Normal => self.normal.push(queued),
            CommandPriority::Low => self.low.push(queued),
        }
        assert(self.interactive_queue() =~= (if spec_command_priority(c) == CommandPriority::Interactive {
            old(self).interactive_queue().push(c)
        } else {
            old(self).interactive_queue()
        }));
        assert(self.high_queue() =~= (if spec_command_priority(c) == CommandPriority::High {
            old(self).high_queue().push(c)
        } else {
            old(self).high_queue()
        }));
        assert(self.normal_queue() =~= (if spec_command_priority(c) == CommandPriority::Normal {
            old(self).normal_queue().push(c)
        } else {
            old(self).normal_queue()
        }));
        assert(self.low_queue() =~= (if spec_command_priority(c) == CommandPriority::Low {
            old(self).low_queue().push(c)
        } else {
            old(self).low_queue()
        }));
    }

    /// Takes the next command to run: waiting low-priority work once eight foreground
    /// commands have run since it last ran; otherwise the oldest interactive command,
    /// then the oldest high, then the oldest normal one; otherwise the oldest low one.
    pub fn pop_next(&mut self) -> (r: Option<QueuedCommand>)
        requires
            old(self).well_classified(),
        ensures
            final(self).well_classified(),
            old(self).waiting().len() == 0 <==> r is None,
            old(self).low_queue().len() > 0 && old(self).foreground_count() >= FAIRNESS_WINDOW ==> {
                &&& r matches Some(q) && q.command == old(self).low_queue()[0]
                &&& final(self).low_queue() == old(self).low_queue().drop_first()
                &&& final(self).interactive_queue() == old(self).interactive_queue()
                &&& final(self).high_queue() == old(self).high_queue()
                &&& final(self).normal_queue() == old(self).normal_queue()
                &&& final(self).foreground_count() == 0
            },
            !(old(self).low_queue().len() > 0 && old(self).foreground_count() >= FAIRNESS_WINDOW) ==> {
                &&& old(self).interactive_queue().len() > 0 ==> {
                    &&& r matches Some(q) && q.command == old(self).interactive_queue()[0]
                    &&& final(self).interactive_queue() == old(self).interactive_queue().drop_first()
                    &&& final(self).high_queue() == old(self).high_queue()
                    &&& final(self).normal_queue() == old(self).normal_queue()
                    &&& final(self).low_queue() == old(self).low_queue()
                    &&& final(self).foreground_count() == bump(old(self).foreground_count())
                }
                &&& old(self).interactive_queue().len() == 0 && old(self).high_queue().len() > 0 ==> {
                    &&& r matches Some(q) && q.command == old(self).high_queue()[0]
                    &&& final(self).high_queue() == old(self).high_queue().drop_first()
                    &&& final(self).interactive_queue() == old(self).interactive_queue()
                    &&& final(self).normal_queue() == old(self).normal_queue()
                    &&& final(self).low_queue() == old(self).low_queue()
                    &&& final(self).foreground_count() == bump(old(self).foreground_count())
                }
                &&& old(self).interactive_queue().len() == 0 && old(self).high_queue().len() == 0
                    && old(self).normal_queue().len() > 0 ==> {
                    &&& r matches Some(q) && q.command == old(self).normal_queue()[0]
                    &&& final(self).normal_queue() == old(self).normal_queue().drop_first()
                    &&& final(self).interactive_queue() == old(self).interactive_queue()
                    &&& final(self).high_queue() == old(self).high_queue()
                    &&& final(self).low_queue() == old(self).low_queue()
                    &&& final(self).foreground_count() == bump(old(self).foreground_count())
                }
                &&& old(self).interactive_queue().len() == 0 && old(self).high_queue().len() == 0
                    && old(self).normal_queue().len() == 0 ==> {
                    &&& final(self).low_queue() == (if old(self).low_queue().len() > 0 {
                        old(self).low_queue().drop_first()
                    } else {
                        old(self).low_queue()
                    })
                    &&& old(self).low_queue().len() > 0 ==> (r matches Some(q) && q.command == old(self).low_queue()[0])
                    &&& final(self).foreground_count() == 0
                }
            },
    {
        if self.low.len() > 0 && self.foreground_since_low >= FAIRNESS_WINDOW {
            self.foreground_since_low = 0;
            let q = self.low.remove(0);
            assert(self.low_queue() =~= old(self).low_queue().drop_first());
            return Some(q);
        }
        let next = if self.interactive.len() > 0 {
            let q = self.interactive.remove(0);
            assert(self.interactive_queue() =~= old(self).interactive_queue().drop_first());
            Some(q)
        } else if self.high.len() > 0 {
            let q = self.high.remove(0);
            assert(self.high_queue() =~= old(self).high_queue().drop_first());
            Some(q)
        } else if self.normal.len() > 0 {
            let q = self.normal.remove(0);
            assert(self.normal_queue() =~= old(self).normal_queue().drop_first());
            Some(q)
        } else {
            None
        };
        if next.is_some() {
            if self.foreground_since_low < usize::MAX {
                self.foreground_since_low = self.foreground_since_low + 1;
            }
            return next;
        }
        self.foreground_since_low = 0;
        if self.low.len() > 0 {
            let q = self.low.remove(0);
            assert(self.low_queue() =~= old(self).low_queue().drop_first());
            Some(q)
        } else {
            None
        }
    }
}

/// Queuing the same coalescible command twice queues it at most once: the second request
/// finds the first waiting and changes nothing.
pub proof fn law_repeated_enqueue_is_absorbed(
    a: CommandScheduler,
    b: CommandScheduler,
    c: CommandScheduler,
    command: BackendCommand,
)
    requires
        enqueue_result(a, b, command),
        enqueue_result(b, c, command),
        coalesces(command, command),
    ensures
        c.waiting() == b.waiting(),
{
    if exists|i: int| 0 <= i < a.waiting().len() && coalesces(#[trigger] a.waiting()[i], command) {
        let i = choose|i: int| 0 <= i < a.waiting().len() && coalesces(#[trigger] a.waiting()[i], command);
        assert(coalesces(b.waiting()[i], command));
    } else {
        let x = b.interactive_queue();
        let h = b.high_queue();
        let n = b.normal_queue();
        let l = b.low_queue();
        assert(b.waiting() == x + h + n + l);
        let p = spec_command_priority(command);
        let idx: int = if p == CommandPriority::Interactive {
            x.len() - 1
        } else if p == CommandPriority::High {
            x.len() + h.len() - 1
        } else if p == CommandPriority::Normal {
            x.len() + h.len() + n.len() - 1
        } else {
            x.len() + h.len() + n.len() + l.len() - 1
        };
        assert(b.waiting()[idx] == command);
        assert(coalesces(b.waiting()[idx], command));
    }
}

/// A load of a playlist that no waiting command loads joins the queue: loads of different
/// playlists are never merged, so the waiting work grows by exactly that load.
pub proof fn law_load_of_another_playlist_is_queued(a: CommandScheduler, b: CommandScheduler, id: PlaylistId)
    requires
        forall|i: int| 0 <= i < a.waiting().len() ==> !((#[trigger] a.waiting()[i]) matches BackendCommand::LoadPlaylist(other) && other@ == id@),
        enqueue_result(a, b, BackendCommand::LoadPlaylist(id)),
    ensures
        b.waiting().len() == a.waiting().len() + 1,
        b.waiting().contains(BackendCommand::LoadPlaylist(id)),
{
    let command = BackendCommand::LoadPlaylist(id);
    assert(!exists|i: int| 0 <= i < a.waiting().len() && coalesces(#[trigger] a.waiting()[i], command)) by {
        if exists|i: int| 0 <= i < a.waiting().len() && coalesces(#[trigger] a.waiting()[i], command) {
            let i = choose|i: int| 0 <= i < a.waiting().len() && coalesces(#[trigger] a.waiting()[i], command);
            assert(!(a.waiting()[i] matches BackendCommand::LoadPlaylist(other) && other@ == id@));
        }
    }
    let x = b.interactive_queue();
    let h = b.high_queue();
    let n = b.normal_queue();
    let l = b.low_queue();
    assert(b.waiting() == x + h + n + l);
    let p = spec_command_priority(command);
    let idx: int = if p == CommandPriority::Interactive {
        x.len() - 1
    } else if p == CommandPriority::High {
        x.len() + h.len() - 1
    } else if p == CommandPriority::Normal {
        x.len() + h.len() + n.len() - 1
    } else {
        x.len() + h.len() + n.len() + l.len() - 1
    };
    assert(b.waiting()[idx] == command);
}

/// Two loads of different playlists queued on an empty scheduler both wait, in the order
/// they were asked for.
pub proof fn law_loads_of_two_playlists_both_wait(
    a: CommandScheduler,
    b: CommandScheduler,
    c: CommandScheduler,
    first: PlaylistId,
    second: PlaylistId,
)
    requires
        a.waiting().len() == 0,
        first@ != second@,
        enqueue_result(a, b, BackendCommand::LoadPlaylist(first)),
        enqueue_result(b, c, BackendCommand::LoadPlaylist(second)),
    ensures
        c.waiting() == seq![BackendCommand::LoadPlaylist(first), BackendCommand::LoadPlaylist(second)],
{
    law_load_of_another_playlist_is_queued(a, b, first);
    assert(b.waiting() =~= seq![BackendCommand::LoadPlaylist(first)]) by {
        let w = choose|w: int| 0 <= w < b.waiting().len() && b.waiting()[w] == BackendCommand::LoadPlaylist(first);
    }
    law_load_of_another_playlist_is_queued(b, c, second);
    assert(spec_command_priority(BackendCommand::LoadPlaylist(first)) == spec_command_priority(BackendCommand::LoadPlaylist(second)));
    let p = spec_command_priority(BackendCommand::LoadPlaylist(second));
    assert(a.interactive_queue().len() == 0 && a.high_queue().len() == 0 && a.normal_queue().len() == 0 && a.low_queue().len() == 0);
    assert(c.waiting() =~= seq![BackendCommand::LoadPlaylist(first), BackendCommand::LoadPlaylist(second)]);
}

} // verus!
