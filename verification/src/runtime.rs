//! Coordinator and serial-worker state machines, and the shared feedback
//! queue.
//!
//! The coordinator multiplexes host commands and worker lifecycle events
//! while tracking whether a port is open; the worker turns each tick's read
//! into feedback records with residue carry. Both are pure decision
//! functions here: the surrounding threads, channels and serial I/O perform
//! the actions they select.

use vstd::prelude::*;

use crate::feedback::Feedback;
use crate::feedback::spec_parse;
use crate::rx::Command;
use crate::rx::CommandId;
use crate::rx::DecodeError;
use crate::rx::copy_range;
use crate::rx::decode;
use crate::rx::header_positions;
use crate::rx::spec_ok_packets;
use crate::rx::spec_residue_out;

verus! {

/// What the coordinator does with a host command.
#[derive(Clone, Copy, Debug, PartialEq, Eq, Structural)]
pub enum CoordAction {
    /// Spawn a serial worker for the named port and hand it the command.
    SpawnWorker,
    /// Pass the command on to the running worker.
    ForwardToWorker,
    /// Drop the command.
    Ignore,
}

/// What the worker does with a command received on its inbound channel.
#[derive(Clone, Copy, Debug, PartialEq, Eq, Structural)]
pub enum WorkerAction {
    /// Announce `closed` and leave the loop, releasing the port.
    CloseAndExit,
    /// Write the command's payload to the port as raw bytes.
    WritePayload,
}

/// The coordinator's routing decision for a host command, as a function of
/// whether a port is currently open.
pub open spec fn spec_route(port_open: bool, cmd: Command) -> CoordAction {
    if cmd.ty == CommandId::SerialControl {
        if cmd.serial_command@ == "open"@ {
            if port_open {
                CoordAction::Ignore
            } else {
                CoordAction::SpawnWorker
            }
        } else if cmd.serial_command@ == "close"@ {
            CoordAction::ForwardToWorker
        } else {
            CoordAction::Ignore
        }
    } else {
        CoordAction::ForwardToWorker
    }
}

/// The coordinator's owned state: whether a serial worker holds an open
/// port, and that port's name.
pub struct TurtlebotData {
    pub current_port_opened: bool,
    pub current_port_name: String,
}

impl TurtlebotData {
    /// The initial state: no port open.
    pub fn new() -> (t: TurtlebotData)
        ensures
            !t.current_port_opened,
            t.current_port_name@ == Seq::<char>::empty(),
    {
        TurtlebotData { current_port_opened: false, current_port_name: String::new() }
    }

    /// Routes one host command: an `open` request spawns a worker only while
    /// no port is open, a `close` request and every non-serial command go to
    /// the worker, and anything else is dropped. The state itself changes
    /// only on worker events.
    pub fn handle_host_command(&self, cmd: &Command) -> (a: CoordAction)
        ensures
            a == spec_route(self.current_port_opened, *cmd),
    {
        if cmd.ty == CommandId::SerialControl {
            let open_word = String::from_str("open");
            let close_word = String::from_str("close");
            if cmd.serial_command == open_word {
                if self.current_port_opened {
                    CoordAction::Ignore
                } else {
                    CoordAction::SpawnWorker
                }
            } else if cmd.serial_command == close_word {
                CoordAction::ForwardToWorker
            } else {
                CoordAction::Ignore
            }
        } else {
            CoordAction::ForwardToWorker
        }
    }

    /// Applies one worker lifecycle event: `opened` records the open port,
    /// `closed` and `error` clear it, and `ready` asks for a notification
    /// through the host sink without touching the state.
    pub fn handle_worker_event(&mut self, evt: &Command) -> (notify: bool)
        ensures
            notify == (evt.serial_command@ == "ready"@),
            evt.serial_command@ == "opened"@ ==> final(self).current_port_opened
                && final(self).current_port_name@ == evt.serial_port_name@,
            (evt.serial_command@ == "closed"@ || evt.serial_command@ == "error"@)
                ==> !final(self).current_port_opened
                && final(self).current_port_name@ == Seq::<char>::empty(),
            (evt.serial_command@ != "opened"@ && evt.serial_command@ != "closed"@
                && evt.serial_command@ != "error"@) ==> *final(self) == *old(self),
    {
        proof {
            reveal_strlit("opened");
            reveal_strlit("closed");
            reveal_strlit("error");
            reveal_strlit("ready");
            assert("opened"@[0] == 'o');
            assert("closed"@[0] == 'c');
            assert("error"@[0] == 'e');
            assert("ready"@[0] == 'r');
        }
        let opened_word = String::from_str("opened");
        let closed_word = String::from_str("closed");
        let error_word = String::from_str("error");
        let ready_word = String::from_str("ready");
        if evt.serial_command == opened_word {
            self.current_port_opened = true;
            self.current_port_name = clone_string(&evt.serial_port_name);
            false
        } else if evt.serial_command == closed_word || evt.serial_command == error_word {
            self.current_port_opened = false;
            self.current_port_name = String::new();
            false
        } else if evt.serial_command == ready_word {
            true
        } else {
            false
        }
    }
}

/// Copies a string; `String::clone` carries no contract, so the copy goes
/// through `as_str`.
fn clone_string(s: &String) -> (r: String)
    ensures
        r@ == s@,
{
    String::from_str(s.as_str())
}

/// At most one worker: an `open` request that arrives while a port is
/// already open is dropped, and in particular spawns no second worker.
pub proof fn lemma_open_while_open_is_ignored(port_open: bool, cmd: Command)
    requires
        port_open,
        cmd.ty == CommandId::SerialControl,
        cmd.serial_command@ == "open"@,
    ensures
        spec_route(port_open, cmd) == CoordAction::Ignore,
{
}

/// The worker's decision for a command on its inbound channel: `close` ends
/// the loop, anything else is written to the port.
pub fn worker_on_command(cmd: &Command) -> (a: WorkerAction)
    ensures
        a == WorkerAction::CloseAndExit <==> cmd.serial_command@ == "close"@,
{
    let close_word = String::from_str("close");
    if cmd.serial_command == close_word {
        WorkerAction::CloseAndExit
    } else {
        WorkerAction::WritePayload
    }
}

/// What one tick's read produced: the decoded feedback records, the residue
/// to carry into the next tick, and whether the host should be told that
/// feedback is ready.
pub struct ReadOutcome {
    pub feedbacks: Vec<Feedback>,
    pub residue: Vec<u8>,
    pub ready: bool,
}

/// Processes one tick's read: decodes it against the carried residue and
/// asks for a `ready` notification exactly when feedback records came out.
/// A read below the decoder's floor leaves the residue untouched; a long
/// read with no preamble becomes the new residue in its entirety.
pub fn worker_process_read(data: &[u8], residue: Vec<u8>) -> (out: ReadOutcome)
    ensures
        data@.len() < 81 ==> out.feedbacks@ == Seq::<Feedback>::empty() && out.residue@ == residue@
            && !out.ready,
        (data@.len() >= 81 && header_positions(data@).len() == 0) ==> out.feedbacks@ == Seq::<
            Feedback,
        >::empty() && out.residue@ == data@ && !out.ready,
        (data@.len() >= 81 && header_positions(data@).len() > 0) ==> ({
            let packets = spec_ok_packets(data@, residue@);
            &&& out.feedbacks@.len() == packets.len()
            &&& forall|j: int|
                0 <= j < packets.len() ==> #[trigger] out.feedbacks@[j] == spec_parse(
                    packets[j],
                    out.feedbacks@[j].epoch_time_stamp,
                )
            &&& out.residue@ == spec_residue_out(data@)
            &&& out.ready == (packets.len() > 0)
        }),
{
    match decode(data, residue.as_slice()) {
        Ok((feedbacks, new_residue)) => {
            let ready = feedbacks.len() > 0;
            ReadOutcome { feedbacks, residue: new_residue, ready }
        },
        Err(DecodeError::InsufficientData) => ReadOutcome {
            feedbacks: Vec::new(),
            residue,
            ready: false,
        },
        Err(DecodeError::NoHeader) => {
            proof {
                assert(data@.subrange(0, data@.len() as int) =~= data@);
            }
            ReadOutcome {
                feedbacks: Vec::new(),
                residue: copy_range(data, 0, data.len()),
                ready: false,
            }
        },
    }
}

/// Why a drain returned no records.
#[derive(Clone, Copy, Debug, PartialEq, Eq, Structural)]
pub enum ReceiveError {
    /// The queue was empty; the caller retries after the next `ready`.
    NoFeedback,
}

/// Drains the feedback queue: a non-empty queue hands over its whole
/// contents, in arrival order, and is left empty; an empty queue reports
/// `NoFeedback`.
pub fn receive(feedbacks: &mut Vec<Feedback>) -> (r: Result<Vec<Feedback>, ReceiveError>)
    ensures
        old(feedbacks)@.len() > 0 ==> r is Ok && r->Ok_0@ == old(feedbacks)@
            && final(feedbacks)@ == Seq::<Feedback>::empty(),
        old(feedbacks)@.len() == 0 ==> r is Err && r->Err_0 == ReceiveError::NoFeedback
            && final(feedbacks)@ == old(feedbacks)@,
{
    if feedbacks.len() > 0 {
        let mut drained: Vec<Feedback> = Vec::new();
        core::mem::swap(&mut drained, feedbacks);
        Ok(drained)
    } else {
        Err(ReceiveError::NoFeedback)
    }
}

/// Appends one read's records to the feedback queue, oldest first.
pub fn push_feedbacks(queue: &mut Vec<Feedback>, batch: &mut Vec<Feedback>)
    ensures
        final(queue)@ == old(queue)@ + old(batch)@,
{
    queue.append(batch);
}

/// The read side of the skeletal secondary bridge: it owns no queue yet, so
/// a poll succeeds with nothing to hand over.
pub fn receive_from_adapter() -> (r: Result<(), ReceiveError>)
    ensures
        r is Ok,
{
    Ok(())
}

} // verus!
