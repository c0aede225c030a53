//! What the acknowledgement path guarantees, end to end.
//!
//! The statements here tie together the command that a client prepares
//! (`client::sealed`), what the writer does with a run of commands
//! (`writer::table_after`, `writer::action_for`) and what a publisher
//! reports once its wait is over (`client::verdict`).

use crate::client;
use crate::client::{AckWait, ClientError};
use crate::command::ClientCommand;
use crate::types::{Outgoing, RelayOk, Request, SignedEvent, UnsignedEvent};
use crate::writer;
use crate::writer::WriterAction;
use vstd::prelude::*;

verus! {

/// None of `cmds` registers or acknowledges the event `id`.
pub open spec fn untouched_by<W>(cmds: Seq<ClientCommand<W>>, id: Seq<u8>) -> bool {
    forall|i: int| 0 <= i < cmds.len() ==> !writer::concerns(#[trigger] cmds[i], id)
}

/// Commands that do not concern an event leave its entry as it is.
pub proof fn entry_survives_other_commands<W>(
    table: Map<Seq<u8>, W>,
    cmds: Seq<ClientCommand<W>>,
    id: Seq<u8>,
)
    requires
        untouched_by(cmds, id),
    ensures
        writer::table_after(table, cmds).contains_key(id) == table.contains_key(id),
        table.contains_key(id) ==> writer::table_after(table, cmds)[id] == table[id],
    decreases cmds.len(),
{
    if cmds.len() > 0 {
        let front = cmds.drop_last();
        assert forall|i: int| 0 <= i < front.len() implies !writer::concerns(
            #[trigger] front[i],
            id,
        ) by {
            assert(front[i] == cmds[i]);
        }
        entry_survives_other_commands(table, front, id);
        assert(!writer::concerns(cmds[cmds.len() - 1], id));
    }
}

/// Once the writer has taken the command that publishes an event, the
/// first acknowledgement for that event completes the publisher's own slot
/// with exactly that acknowledgement, whatever other traffic the writer has
/// handled in between.
pub proof fn acknowledgement_reaches_publisher<W>(
    table: Map<Seq<u8>, W>,
    event: SignedEvent,
    waiter: W,
    between: Seq<ClientCommand<W>>,
    ok: RelayOk,
)
    requires
        ok.event_id@ == event.id@,
        untouched_by(between, event.id@),
    ensures
        writer::action_for(
            writer::table_after(
                writer::next_table(table, ClientCommand::Event(event, waiter)),
                between,
            ),
            ClientCommand::Ack(ok),
        ) == WriterAction::Resolve(waiter, ok),
{
    let registered = writer::next_table(table, ClientCommand::Event(event, waiter));
    entry_survives_other_commands(registered, between, event.id@);
}

/// A publish that the relay accepts succeeds: the client's command for a
/// signed event, taken by the writer and answered by the relay with
/// `accepted`, completes the publisher's slot, and the publisher reports
/// success.
pub proof fn accepted_publish_succeeds<W>(
    table: Map<Seq<u8>, W>,
    event: UnsignedEvent,
    waiter: W,
    signature: Vec<u8>,
    between: Seq<ClientCommand<W>>,
    ok: RelayOk,
)
    requires
        ok.event_id@ == event.id@,
        ok.accepted,
        untouched_by(between, event.id@),
    ensures
        client::sealed(event, waiter, Ok(signature)) matches Ok(cmd) && writer::action_for(
            writer::table_after(writer::next_table(table, cmd), between),
            ClientCommand::Ack(ok),
        ) == WriterAction::Resolve(waiter, ok),
        client::verdict(AckWait::Resolved(ok)) == Ok::<(), ClientError>(()),
{
    let signed = SignedEvent { id: event.id, body: event.body, signature };
    acknowledgement_reaches_publisher(table, signed, waiter, between, ok);
}

/// A publish that the relay refuses fails with the relay's own reason: the
/// publisher's slot is completed with the refusal, and the failure that the
/// publisher reports carries the message of that refusal unchanged.
pub proof fn rejected_publish_carries_reason<W>(
    table: Map<Seq<u8>, W>,
    event: UnsignedEvent,
    waiter: W,
    signature: Vec<u8>,
    between: Seq<ClientCommand<W>>,
    ok: RelayOk,
)
    requires
        ok.event_id@ == event.id@,
        !ok.accepted,
        untouched_by(between, event.id@),
    ensures
        client::sealed(event, waiter, Ok(signature)) matches Ok(cmd) && writer::action_for(
            writer::table_after(writer::next_table(table, cmd), between),
            ClientCommand::Ack(ok),
        ) == WriterAction::Resolve(waiter, ok),
        client::verdict(AckWait::Resolved(ok)) == Err::<(), ClientError>(
            ClientError::Rejected(ok.message),
        ),
{
    let signed = SignedEvent { id: event.id, body: event.body, signature };
    acknowledgement_reaches_publisher(table, signed, waiter, between, ok);
}

/// A publish that gets no verdict fails with a timeout, whether its slot
/// was still pending when the time ran out or had been given up before.
pub proof fn unanswered_publish_times_out()
    ensures
        client::verdict(AckWait::TimedOut) == Err::<(), ClientError>(ClientError::AckTimeout),
        client::verdict(AckWait::Abandoned) == Err::<(), ClientError>(ClientError::AckTimeout),
{
}

/// A publish whose wait runs out fails with a timeout, and an
/// acknowledgement that arrives afterwards changes nothing about that: the
/// writer merely clears the entry the publish had left behind.
pub proof fn late_acknowledgement_keeps_timeout<W>(table: Map<Seq<u8>, W>, late: RelayOk)
    ensures
        client::verdict(AckWait::TimedOut) == Err::<(), ClientError>(ClientError::AckTimeout),
        !writer::next_table(table, ClientCommand::Ack(late)).contains_key(late.event_id@),
{
}

/// A second publish under an identifier displaces the first: both events
/// are sent, in order; the first publisher's slot comes back with the second
/// send, without a verdict; the acknowledgement completes the second
/// publisher's slot only and leaves nothing pending under the identifier;
/// and the first publisher, whose slot was given up, ends in the timeout.
pub proof fn repeated_publish_displaces_the_first<W>(
    table: Map<Seq<u8>, W>,
    first: SignedEvent,
    first_waiter: W,
    second: SignedEvent,
    second_waiter: W,
    ok: RelayOk,
)
    requires
        first.id@ == second.id@,
        ok.event_id@ == second.id@,
    ensures
        ({
            let one = writer::next_table(table, ClientCommand::Event(first, first_waiter));
            let two = writer::next_table(one, ClientCommand::Event(second, second_waiter));
            &&& writer::action_for(table, ClientCommand::Event(first, first_waiter))
                matches WriterAction::Send(frame, _) && frame == Outgoing::Publication(first)
            &&& writer::action_for(one, ClientCommand::Event(second, second_waiter))
                == WriterAction::Send(Outgoing::Publication(second), Some(first_waiter))
            &&& two[second.id@] == second_waiter
            &&& writer::action_for(two, ClientCommand::Ack(ok)) == WriterAction::Resolve(
                second_waiter,
                ok,
            )
            &&& !writer::next_table(two, ClientCommand::Ack(ok)).contains_key(second.id@)
        }),
        client::verdict(AckWait::Abandoned) == Err::<(), ClientError>(ClientError::AckTimeout),
{
}

/// A failed write ends the writer for good: from then on it hands every
/// command back, sends nothing, completes no slot and leaves its table as
/// it is, whatever is written or acknowledged later.  The publishers that
/// are pending then get no verdict and end in the timeout.
pub proof fn failed_write_ends_the_writer<W>(
    running: bool,
    later_write: bool,
    table: Map<Seq<u8>, W>,
    cmd: ClientCommand<W>,
)
    ensures
        !writer::runs_on(running, false),
        !writer::runs_on(writer::runs_on(running, false), later_write),
        writer::taken(writer::runs_on(running, false), table, cmd) == (
            table,
            WriterAction::Halt(cmd),
        ),
        client::verdict(AckWait::TimedOut) == Err::<(), ClientError>(ClientError::AckTimeout),
        client::verdict(AckWait::Abandoned) == Err::<(), ClientError>(ClientError::AckTimeout),
{
}

/// A publish under an identifier that nothing is pending under displaces
/// no slot.
pub proof fn first_publish_displaces_nothing<W>(
    table: Map<Seq<u8>, W>,
    event: SignedEvent,
    waiter: W,
)
    requires
        !table.contains_key(event.id@),
    ensures
        writer::action_for(table, ClientCommand::Event(event, waiter)) == WriterAction::Send(
            Outgoing::Publication(event),
            None::<W>,
        ),
{
}

/// An acknowledgement that matches no pending publish is dropped: the writer
/// asks for nothing and its table stays as it was.
pub proof fn unmatched_acknowledgement_is_dropped<W>(table: Map<Seq<u8>, W>, ok: RelayOk)
    requires
        !table.contains_key(ok.event_id@),
    ensures
        writer::action_for(table, ClientCommand::Ack(ok)) == WriterAction::<W>::Ignore,
        writer::next_table(table, ClientCommand::Ack(ok)) == table,
{
    assert(table.remove(ok.event_id@) =~= table);
}

/// A slot is completed at most once: after an acknowledgement for an event,
/// a further acknowledgement for the same event is dropped, until the event
/// is published again.
pub proof fn acknowledgement_resolves_once<W>(table: Map<Seq<u8>, W>, ok: RelayOk, again: RelayOk)
    requires
        again.event_id@ == ok.event_id@,
    ensures
        writer::action_for(
            writer::next_table(table, ClientCommand::Ack(ok)),
            ClientCommand::Ack(again),
        ) == WriterAction::<W>::Ignore,
{
}

/// An acknowledgement touches no publish but its own: every entry under
/// another identifier stays pending, with the same slot.
pub proof fn acknowledgement_spares_other_publishes<W>(
    table: Map<Seq<u8>, W>,
    ok: RelayOk,
    other: Seq<u8>,
)
    requires
        other != ok.event_id@,
    ensures
        writer::next_table(table, ClientCommand::Ack(ok)).contains_key(other)
            == table.contains_key(other),
        table.contains_key(other) ==> writer::next_table(table, ClientCommand::Ack(ok))[other]
            == table[other],
{
}

/// The writer sends frames in the order in which their commands were
/// submitted: the frames it sends over a run of commands are the frames of
/// those commands, one for one and in the same order.
pub proof fn frames_leave_in_submission_order<W>(
    table: Map<Seq<u8>, W>,
    cmds: Seq<ClientCommand<W>>,
)
    ensures
        writer::frames_sent(writer::actions_for(table, cmds)) == writer::frames_submitted(cmds),
    decreases cmds.len(),
{
    let actions = writer::actions_for(table, cmds);
    if cmds.len() > 0 {
        let front = cmds.drop_last();
        let n = front.len() as int;
        frames_leave_in_submission_order(table, front);
        assert forall|i: int| 0 <= i < n implies actions.drop_last()[i] == writer::actions_for(
            table,
            front,
        )[i] by {
            assert(front.take(i) =~= cmds.take(i));
        }
        assert(actions.drop_last() =~= writer::actions_for(table, front));
        assert(cmds.take(n) =~= front);
        assert(actions.last() == writer::action_for(
            writer::table_after(table, front),
            cmds.last(),
        ));
    }
}

/// Two publishes submitted back to back go out in that order.
pub proof fn publishes_leave_in_submission_order<W>(
    table: Map<Seq<u8>, W>,
    first: SignedEvent,
    first_waiter: W,
    second: SignedEvent,
    second_waiter: W,
)
    ensures
        writer::frames_sent(
            writer::actions_for(
                table,
                seq![
                    ClientCommand::Event(first, first_waiter),
                    ClientCommand::Event(second, second_waiter),
                ],
            ),
        ) == seq![Outgoing::Publication(first), Outgoing::Publication(second)],
{
    let cmds = seq![
        ClientCommand::Event(first, first_waiter),
        ClientCommand::Event(second, second_waiter),
    ];
    frames_leave_in_submission_order(table, cmds);
    reveal_with_fuel(writer::frames_submitted, 3);
    assert(cmds.drop_last() =~= seq![ClientCommand::Event(first, first_waiter)]);
    assert(cmds.drop_last().drop_last() =~= Seq::<ClientCommand<W>>::empty());
    assert(writer::frames_submitted(cmds) =~= seq![
        Outgoing::Publication(first),
        Outgoing::Publication(second),
    ]);
}

/// A subscription waits for no publish: whatever publishes are pending, the
/// writer sends the subscription at once and leaves every pending publish
/// as it is.
pub proof fn subscription_is_independent_of_publishes<W>(table: Map<Seq<u8>, W>, request: Request)
    ensures
        writer::action_for(table, ClientCommand::Req(request)) == WriterAction::<W>::Send(
            Outgoing::Subscription(request),
            None,
        ),
        writer::next_table(table, ClientCommand::Req(request)) == table,
{
}

} // verus!
