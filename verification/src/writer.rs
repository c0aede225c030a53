//! The writer side of a connection: the single owner of the send half of
//! the socket and of the table that matches acknowledgements to the
//! publishers waiting for them.
//!
//! The writer is driven one command at a time.  For each command it says
//! what has to happen next; whoever owns the socket does it and, after a
//! write, reports how it went.

use crate::command::ClientCommand;
use crate::types::{same_bytes32, Bytes32, Outgoing, RelayOk};
use vstd::prelude::*;

verus! {

/// What the writer asks for after taking one command.
///
/// The writer never completes and never drops a slot by itself.  A slot
/// leaves it either to be completed ([`WriterAction::Resolve`]) or to be
/// kept aside without a verdict ([`WriterAction::Send`],
/// [`WriterAction::Halt`]); the publisher of a slot kept aside hears
/// nothing and runs into its timeout.
#[derive(Debug, PartialEq, Eq)]
pub enum WriterAction<W> {
    /// Put this frame on the socket, then report the result with
    /// [`Correlator::after_write`].  The second field is the slot that this
    /// publish has displaced, if it has displaced one: keep it aside.
    Send(Outgoing, Option<W>),
    /// Complete this slot with the relay's verdict.
    Resolve(W, RelayOk),
    /// Nothing to do: the acknowledgement matches no pending publish.
    Ignore,
    /// The writer has stopped.  The command comes back as it was and
    /// nothing is done about it: keep its slot, if it has one, aside.
    Halt(ClientCommand<W>),
}

/// The slot that a publish of the event `id` displaces: the one that is
/// pending under the same identifier, if there is one.
pub open spec fn displaced<W>(table: Map<Seq<u8>, W>, id: Seq<u8>) -> Option<W> {
    if table.contains_key(id) {
        Some(table[id])
    } else {
        None
    }
}

/// The table after the writer has taken `cmd`.
pub open spec fn next_table<W>(table: Map<Seq<u8>, W>, cmd: ClientCommand<W>) -> Map<
    Seq<u8>,
    W,
> {
    match cmd {
        ClientCommand::Req(_) => table,
        ClientCommand::Event(event, waiter) => table.insert(event.id@, waiter),
        ClientCommand::Ack(ok) => table.remove(ok.event_id@),
    }
}

/// What the writer asks for when it takes `cmd` with `table` pending.
pub open spec fn action_for<W>(table: Map<Seq<u8>, W>, cmd: ClientCommand<W>) -> WriterAction<
    W,
> {
    match cmd {
        ClientCommand::Req(request) => WriterAction::Send(Outgoing::Subscription(request), None),
        ClientCommand::Event(event, _) => WriterAction::Send(
            Outgoing::Publication(event),
            displaced(table, event.id@),
        ),
        ClientCommand::Ack(ok) => if table.contains_key(ok.event_id@) {
            WriterAction::Resolve(table[ok.event_id@], ok)
        } else {
            WriterAction::Ignore
        },
    }
}

/// What a writer does with `cmd`: the table it is left with and what it asks
/// for.  A writer that has stopped leaves its table alone and hands the
/// command back.
pub open spec fn taken<W>(running: bool, table: Map<Seq<u8>, W>, cmd: ClientCommand<W>) -> (
    Map<Seq<u8>, W>,
    WriterAction<W>,
) {
    if running {
        (next_table(table, cmd), action_for(table, cmd))
    } else {
        (table, WriterAction::Halt(cmd))
    }
}

/// Whether a writer goes on after a write: a failed write stops it, and a
/// writer that has stopped stays so.
pub open spec fn runs_on(running: bool, delivered: bool) -> bool {
    running && delivered
}

/// The table after the writer has taken `cmds` in order.
pub open spec fn table_after<W>(table: Map<Seq<u8>, W>, cmds: Seq<ClientCommand<W>>) -> Map<
    Seq<u8>,
    W,
>
    decreases cmds.len(),
{
    if cmds.len() == 0 {
        table
    } else {
        next_table(table_after(table, cmds.drop_last()), cmds.last())
    }
}

/// The actions of a writer that starts with `table` and takes `cmds` in order.
pub open spec fn actions_for<W>(table: Map<Seq<u8>, W>, cmds: Seq<ClientCommand<W>>) -> Seq<
    WriterAction<W>,
> {
    Seq::new(cmds.len(), |i: int| action_for(table_after(table, cmds.take(i)), cmds[i]))
}

/// The frame that a command puts on the wire, if it puts one.
pub open spec fn frame_of<W>(cmd: ClientCommand<W>) -> Option<Outgoing> {
    match cmd {
        ClientCommand::Req(request) => Some(Outgoing::Subscription(request)),
        ClientCommand::Event(event, _) => Some(Outgoing::Publication(event)),
        ClientCommand::Ack(_) => None,
    }
}

/// The frames that `cmds` put on the wire, in the order of the commands.
pub open spec fn frames_submitted<W>(cmds: Seq<ClientCommand<W>>) -> Seq<Outgoing>
    decreases cmds.len(),
{
    if cmds.len() == 0 {
        Seq::empty()
    } else {
        match frame_of(cmds.last()) {
            Some(frame) => frames_submitted(cmds.drop_last()).push(frame),
            None => frames_submitted(cmds.drop_last()),
        }
    }
}

/// The frames that a run of actions sends, in the order of the actions.
pub open spec fn frames_sent<W>(actions: Seq<WriterAction<W>>) -> Seq<Outgoing>
    decreases actions.len(),
{
    if actions.len() == 0 {
        Seq::empty()
    } else {
        match actions.last() {
            WriterAction::Send(frame, _) => frames_sent(actions.drop_last()).push(frame),
            _ => frames_sent(actions.drop_last()),
        }
    }
}

/// Whether `cmd` registers or acknowledges the event `id`.
pub open spec fn concerns<W>(cmd: ClientCommand<W>, id: Seq<u8>) -> bool {
    match cmd {
        ClientCommand::Req(_) => false,
        ClientCommand::Event(event, _) => event.id@ == id,
        ClientCommand::Ack(ok) => ok.event_id@ == id,
    }
}

/// One publish that has been written and not yet acknowledged.
struct Pending<W> {
    id: Bytes32,
    waiter: W,
}

spec fn holds<W>(entries: Seq<Pending<W>>, key: Seq<u8>) -> bool {
    exists|i: int| 0 <= i < entries.len() && (#[trigger] entries[i]).id@ == key
}

spec fn index_of<W>(entries: Seq<Pending<W>>, key: Seq<u8>) -> int {
    choose|i: int| 0 <= i < entries.len() && (#[trigger] entries[i]).id@ == key
}

spec fn distinct<W>(entries: Seq<Pending<W>>) -> bool {
    forall|i: int, j: int|
        0 <= i < j < entries.len() ==> (#[trigger] entries[i]).id@ != (#[trigger] entries[j]).id@
}

spec fn table_of<W>(entries: Seq<Pending<W>>) -> Map<Seq<u8>, W> {
    Map::new(|key: Seq<u8>| holds(entries, key), |key: Seq<u8>| entries[index_of(entries, key)].waiter)
}

proof fn lemma_table_entry<W>(entries: Seq<Pending<W>>, i: int)
    requires
        distinct(entries),
        0 <= i < entries.len(),
    ensures
        table_of(entries).contains_key(entries[i].id@),
        table_of(entries)[entries[i].id@] == entries[i].waiter,
{
    let key = entries[i].id@;
    assert(holds(entries, key));
    let j = index_of(entries, key);
    assert(j == i);
}

proof fn lemma_table_push<W>(entries: Seq<Pending<W>>, entry: Pending<W>)
    requires
        distinct(entries),
        !holds(entries, entry.id@),
    ensures
        distinct(entries.push(entry)),
        table_of(entries.push(entry)) == table_of(entries).insert(entry.id@, entry.waiter),
{
    let grown = entries.push(entry);
    let last = entries.len() as int;
    assert forall|i: int, j: int| 0 <= i < j < grown.len() implies (#[trigger] grown[i]).id@ != (
    #[trigger] grown[j]).id@ by {
        if j == last {
            assert(entries[i].id@ != entry.id@);
        } else {
            assert(entries[i].id@ != entries[j].id@);
        }
    }
    assert forall|key: Seq<u8>| holds(grown, key) <==> (key == entry.id@ || holds(entries, key)) by {
        if holds(grown, key) {
            let i = index_of(grown, key);
            if i < last {
                assert(entries[i].id@ == key);
            }
        }
        if key == entry.id@ {
            assert(grown[last].id@ == key);
        }
        if holds(entries, key) {
            let i = index_of(entries, key);
            assert(grown[i].id@ == key);
        }
    }
    assert forall|key: Seq<u8>| holds(grown, key) implies table_of(grown)[key] == table_of(
        entries,
    ).insert(entry.id@, entry.waiter)[key] by {
        let i = index_of(grown, key);
        lemma_table_entry(grown, i);
        if i < last {
            lemma_table_entry(entries, i);
        }
    }
    assert(table_of(grown) =~= table_of(entries).insert(entry.id@, entry.waiter));
}

proof fn lemma_table_remove<W>(entries: Seq<Pending<W>>, at: int)
    requires
        distinct(entries),
        0 <= at < entries.len(),
    ensures
        distinct(entries.remove(at)),
        !holds(entries.remove(at), entries[at].id@),
        table_of(entries.remove(at)) == table_of(entries).remove(entries[at].id@),
{
    let rest = entries.remove(at);
    let gone = entries[at].id@;
    assert forall|i: int| 0 <= i < rest.len() implies (#[trigger] rest[i]) == entries[if i < at {
        i
    } else {
        i + 1
    }] by {}
    assert forall|i: int, j: int| 0 <= i < j < rest.len() implies (#[trigger] rest[i]).id@ != (
    #[trigger] rest[j]).id@ by {
        let a = if i < at { i } else { i + 1 };
        let b = if j < at { j } else { j + 1 };
        assert(entries[a].id@ != entries[b].id@);
    }
    assert forall|key: Seq<u8>| holds(rest, key) <==> (key != gone && holds(entries, key)) by {
        if holds(rest, key) {
            let i = index_of(rest, key);
            let a = if i < at { i } else { i + 1 };
            assert(entries[a].id@ == key);
            if a < at {
                assert(entries[a].id@ != entries[at].id@);
            } else {
                assert(entries[at].id@ != entries[a].id@);
            }
        }
        if key != gone && holds(entries, key) {
            let a = index_of(entries, key);
            let i = if a < at { a } else { a - 1 };
            assert(rest[i].id@ == key);
        }
    }
    assert forall|key: Seq<u8>| holds(rest, key) implies table_of(rest)[key] == table_of(
        entries,
    )[key] by {
        let i = index_of(rest, key);
        let a = if i < at { i } else { i + 1 };
        lemma_table_entry(rest, i);
        lemma_table_entry(entries, a);
    }
    assert(table_of(rest) =~= table_of(entries).remove(gone));
}

/// The writer's state: the acknowledgement table and whether the writer is
/// still running.  It is owned by the one task that drives the writer.
pub struct Correlator<W> {
    pending: Vec<Pending<W>>,
    running: bool,
}

impl<W> View for Correlator<W> {
    type V = Map<Seq<u8>, W>;

    /// The pending publishes: from an event's identifier to the slot of the
    /// publisher that waits for its acknowledgement.
    closed spec fn view(&self) -> Map<Seq<u8>, W> {
        table_of(self.pending@)
    }
}

impl<W> Correlator<W> {
    /// No event identifier is entered twice.  Every value that this module
    /// hands out satisfies it, and every operation keeps it.
    pub closed spec fn well_formed(&self) -> bool {
        distinct(self.pending@)
    }

    /// Whether the writer still takes commands.
    pub closed spec fn running(&self) -> bool {
        self.running
    }

    /// A running writer with no publish pending.
    pub fn new() -> (fresh: Self)
        ensures
            fresh.well_formed(),
            fresh@ == Map::<Seq<u8>, W>::empty(),
            fresh.running(),
    {
        let fresh = Correlator { pending: Vec::new(), running: true };
        assert(fresh@ =~= Map::<Seq<u8>, W>::empty());
        fresh
    }

    /// Whether the writer still takes commands.
    pub fn is_running(&self) -> (running: bool)
        ensures
            running == self.running(),
    {
        self.running
    }

    /// Whether a publish of the event `id` waits for its acknowledgement.
    pub fn is_pending(&self, id: &Bytes32) -> (pending: bool)
        ensures
            pending == self@.contains_key(id@),
    {
        self.position(id).is_some()
    }

    fn position(&self, id: &Bytes32) -> (found: Option<usize>)
        ensures
            match found {
                Some(i) => i < self.pending.len() && self.pending[i as int].id@ == id@,
                None => !holds(self.pending@, id@),
            },
    {
        let mut i: usize = 0;
        while i < self.pending.len()
            invariant
                i <= self.pending.len(),
                forall|k: int| 0 <= k < i ==> (#[trigger] self.pending@[k]).id@ != id@,
            decreases self.pending.len() - i,
        {
            if same_bytes32(&self.pending[i].id, id) {
                return Some(i);
            }
            i += 1;
        }
        None
    }

    /// Takes the next command from the channel and says what to do about it.
    ///
    /// A subscription is sent as it is.  An event is entered in the table
    /// under its identifier and then sent; the slot of an earlier publish
    /// under the same identifier leaves the table and comes back with the
    /// action, without a verdict.  An acknowledgement takes the matching
    /// entry out of the table and completes its slot; if there is none, it is
    /// dropped.  A writer that has stopped leaves its table alone and hands
    /// every command back.
    pub fn on_command(&mut self, cmd: ClientCommand<W>) -> (action: WriterAction<W>)
        requires
            old(self).well_formed(),
        ensures
            final(self).well_formed(),
            final(self).running() == old(self).running(),
            (final(self)@, action) == taken(old(self).running(), old(self)@, cmd),
    {
        if !self.running {
            return WriterAction::Halt(cmd);
        }
        match cmd {
            ClientCommand::Req(request) => WriterAction::Send(
                Outgoing::Subscription(request),
                None,
            ),
            ClientCommand::Event(event, waiter) => {
                let ghost before = self.pending@;
                let earlier = match self.position(&event.id) {
                    Some(i) => {
                        proof {
                            lemma_table_remove(before, i as int);
                            lemma_table_entry(before, i as int);
                        }
                        let entry = self.pending.remove(i);
                        Some(entry.waiter)
                    },
                    None => {
                        assert(table_of(before) =~= table_of(before).remove(event.id@));
                        None
                    },
                };
                let entry = Pending { id: event.id, waiter };
                proof {
                    lemma_table_push(self.pending@, entry);
                }
                self.pending.push(entry);
                assert(self@ =~= table_of(before).insert(event.id@, waiter));
                WriterAction::Send(Outgoing::Publication(event), earlier)
            },
            ClientCommand::Ack(ok) => {
                let ghost before = self.pending@;
                match self.position(&ok.event_id) {
                    Some(i) => {
                        proof {
                            lemma_table_remove(before, i as int);
                            lemma_table_entry(before, i as int);
                        }
                        let entry = self.pending.remove(i);
                        WriterAction::Resolve(entry.waiter, ok)
                    },
                    None => {
                        assert(table_of(before) =~= table_of(before).remove(ok.event_id@));
                        WriterAction::Ignore
                    },
                }
            },
        }
    }

    /// Takes the result of the write that the last [`WriterAction::Send`]
    /// asked for.  A failed write stops the writer for good; the result says
    /// whether the writer goes on.
    pub fn after_write(&mut self, delivered: bool) -> (running: bool)
        ensures
            final(self).well_formed() == old(self).well_formed(),
            final(self)@ == old(self)@,
            final(self).running() == runs_on(old(self).running(), delivered),
            running == final(self).running(),
    {
        if !delivered {
            self.running = false;
        }
        self.running
    }
}

} // verus!
