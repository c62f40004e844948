//! What the client worker turns to next.
use vstd::prelude::*;

use crate::worker_action::{ClientCommand, StopPurpose, WorkerAction, WorkerInputs, WorkerStep};
use crate::ws_client_worker;
use crate::ws_client_worker::WSClientWorker;

verus! {

/// What a source of work offers.
#[derive(Clone, Copy, Debug, PartialEq, Eq, Structural)]
pub enum Readiness {
    /// Nothing yet.
    Pending,
    /// At least one item.
    Ready,
    /// Nothing any more.
    Closed,
}

/// What the worker's sources offer at one moment.
#[derive(Clone, Copy, Debug, PartialEq, Eq, Structural)]
pub struct TurnSources {
    /// Whether shutdown was requested.
    pub shutdown: bool,
    /// Whether the caller's session was cancelled.
    pub session_cancelled: bool,
    /// Requests of the client's owner.
    pub commands: Readiness,
    /// Changes of the network, if it is observed.
    pub network: Readiness,
    /// Results of background tasks.
    pub events: Readiness,
}

/// What the worker turns to.
#[derive(Clone, Copy, Debug, PartialEq, Eq, Structural)]
pub enum WorkerTurn {
    /// Shut down without a waiting caller.
    ShutDown,
    /// Disconnect on behalf of a cancelled session.
    Disconnect,
    /// Handle the next command.
    HandleCommand,
    /// End the loop: no command can come any more.
    Leave,
    /// Look at the network.
    ReconcileNetwork,
    /// Observe the network no more.
    ForgetNetwork,
    /// Handle the next event.
    HandleEvent,
    /// Wait until a source has something to offer.
    Wait,
}

/// What goes first among the sources.
pub open spec fn first_turn(sources: TurnSources) -> WorkerTurn {
    if sources.shutdown {
        WorkerTurn::ShutDown
    } else if sources.session_cancelled {
        WorkerTurn::Disconnect
    } else if sources.commands is Ready {
        WorkerTurn::HandleCommand
    } else if sources.commands is Closed {
        WorkerTurn::Leave
    } else if sources.network is Ready {
        WorkerTurn::ReconcileNetwork
    } else if sources.network is Closed {
        WorkerTurn::ForgetNetwork
    } else if sources.events is Ready {
        WorkerTurn::HandleEvent
    } else {
        WorkerTurn::Wait
    }
}

/// Chooses what the worker turns to: shutdown before a cancelled session, that
/// before commands, those before the network, and events last.
pub fn next_turn(sources: TurnSources) -> (turn: WorkerTurn)
    ensures
        turn == first_turn(sources),
{
    if sources.shutdown {
        return WorkerTurn::ShutDown;
    }
    if sources.session_cancelled {
        return WorkerTurn::Disconnect;
    }
    match sources.commands {
        Readiness::Ready => {
            return WorkerTurn::HandleCommand;
        },
        Readiness::Closed => {
            return WorkerTurn::Leave;
        },
        Readiness::Pending => {},
    }
    match sources.network {
        Readiness::Ready => {
            return WorkerTurn::ReconcileNetwork;
        },
        Readiness::Closed => {
            return WorkerTurn::ForgetNetwork;
        },
        Readiness::Pending => {},
    }
    match sources.events {
        Readiness::Ready => WorkerTurn::HandleEvent,
        _ => WorkerTurn::Wait,
    }
}

/// What is left to do in a turn.
#[derive(Clone, Copy, Debug, PartialEq, Eq)]
pub enum TurnOutcome {
    /// The turn was taken.
    Taken(WorkerStep),
    /// The next command is to be handled.
    HandleCommand,
    /// The next event is to be handled.
    HandleEvent,
    /// The network is to be observed no more.
    ForgetNetwork,
    /// A source has to offer something first.
    Wait,
}

impl WSClientWorker {
    /// One turn of the event loop. What needs no item of a queue is carried out
    /// at once; for the rest the caller takes the item and hands it in.
    pub fn run_async(
        &mut self,
        sources: TurnSources,
        inputs: &WorkerInputs,
        actions: &mut Vec<WorkerAction>,
    ) -> (outcome: TurnOutcome)
        ensures
            ({
                let before = old(self).run(old(actions)@);
                let after = final(self).run(final(actions)@);
                match first_turn(sources) {
                    WorkerTurn::ShutDown => {
                        &&& after == before.command(
                            ClientCommand::Shutdown { wants_reply: false },
                            *inputs,
                        )
                        &&& outcome == TurnOutcome::Taken(
                            WorkerStep::AwaitStop(StopPurpose::Shutdown { wants_reply: false }),
                        )
                    },
                    WorkerTurn::Disconnect => {
                        &&& after == before.command(ClientCommand::Disconnect, *inputs)
                        &&& outcome == TurnOutcome::Taken(
                            WorkerStep::AwaitStop(StopPurpose::Disconnect),
                        )
                    },
                    WorkerTurn::HandleCommand => after == before && outcome is HandleCommand,
                    WorkerTurn::Leave => after == before && outcome == TurnOutcome::Taken(
                        WorkerStep::Exit,
                    ),
                    WorkerTurn::ReconcileNetwork => {
                        &&& after == before.reconcile(*inputs)
                        &&& outcome == TurnOutcome::Taken(
                            if before.reconcile_loses(*inputs) {
                                WorkerStep::AwaitStop(
                                    StopPurpose::Loss(ws_client_worker::network_loss()),
                                )
                            } else {
                                WorkerStep::Done
                            },
                        )
                    },
                    WorkerTurn::ForgetNetwork => after == before && outcome is ForgetNetwork,
                    WorkerTurn::HandleEvent => after == before && outcome is HandleEvent,
                    WorkerTurn::Wait => after == before && outcome is Wait,
                }
            }),
    {
        match next_turn(sources) {
            WorkerTurn::ShutDown => TurnOutcome::Taken(
                self.handle_command(ClientCommand::Shutdown { wants_reply: false }, inputs, actions),
            ),
            WorkerTurn::Disconnect => TurnOutcome::Taken(
                self.handle_command(ClientCommand::Disconnect, inputs, actions),
            ),
            WorkerTurn::HandleCommand => TurnOutcome::HandleCommand,
            WorkerTurn::Leave => TurnOutcome::Taken(WorkerStep::Exit),
            WorkerTurn::ReconcileNetwork => TurnOutcome::Taken(
                self.reconcile_network_status(inputs, actions),
            ),
            WorkerTurn::ForgetNetwork => TurnOutcome::ForgetNetwork,
            WorkerTurn::HandleEvent => TurnOutcome::HandleEvent,
            WorkerTurn::Wait => TurnOutcome::Wait,
        }
    }
}

/// A requested shutdown is never put off by commands, sessions, the network or
/// events, however many there are.
pub proof fn shutdown_goes_first(sources: TurnSources)
    ensures
        sources.shutdown <==> first_turn(sources) is ShutDown,
{
}

/// The worker waits only when no source has anything to offer.
pub proof fn the_worker_never_waits_with_work(sources: TurnSources)
    ensures
        first_turn(sources) is Wait <==> !sources.shutdown && !sources.session_cancelled
            && sources.commands is Pending && sources.network is Pending && !(
        sources.events is Ready),
{
}

/// Sources are served in their order: shutdown, a cancelled session, commands, the
/// network, events; each as soon as nothing before it has anything to offer.
pub proof fn sources_are_served_in_order(sources: TurnSources)
    ensures
        ({
            let turn = first_turn(sources);
            let calm = !sources.shutdown && !sources.session_cancelled;
            let uncommanded = calm && sources.commands is Pending;
            &&& !sources.shutdown && sources.session_cancelled <==> turn is Disconnect
            &&& calm && sources.commands is Ready <==> turn is HandleCommand
            &&& calm && sources.commands is Closed <==> turn is Leave
            &&& uncommanded && sources.network is Ready <==> turn is ReconcileNetwork
            &&& uncommanded && sources.network is Closed <==> turn is ForgetNetwork
            &&& uncommanded && sources.network is Pending && sources.events is Ready
                <==> turn is HandleEvent
        }),
{
}

} // verus!
