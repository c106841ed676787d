use turtlebot2::feedback::Feedback;
use turtlebot2::runtime::push_feedbacks;
use turtlebot2::runtime::receive;
use turtlebot2::runtime::worker_on_command;
use turtlebot2::runtime::worker_process_read;
use turtlebot2::runtime::CoordAction;
use turtlebot2::runtime::ReceiveError;
use turtlebot2::runtime::TurtlebotData;
use turtlebot2::runtime::WorkerAction;
use turtlebot2::rx::Command;
use turtlebot2::rx::CommandId;

fn serial_command(word: &str, port: &str) -> Command {
    let mut cmd = Command::new();
    cmd.serial_command = String::from(word);
    cmd.serial_port_name = String::from(port);
    cmd
}

#[test]
fn port_lifecycle_with_open_failure() {
    // With no port open, `open` spawns a worker; the worker's `error`
    // returns the coordinator to the closed state; a second `open` is
    // permitted again.
    let mut state = TurtlebotData::new();
    assert!(!state.current_port_opened);

    let open_cmd = serial_command("open", "X");
    assert_eq!(state.handle_host_command(&open_cmd), CoordAction::SpawnWorker);

    let notify = state.handle_worker_event(&serial_command("error", ""));
    assert!(!notify);
    assert!(!state.current_port_opened);
    assert_eq!(state.current_port_name, "");

    assert_eq!(state.handle_host_command(&open_cmd), CoordAction::SpawnWorker);
}

#[test]
fn open_while_open_is_ignored() {
    // At most one worker: `open` while a port is open is a no-op.
    let mut state = TurtlebotData::new();
    let open_cmd = serial_command("open", "/dev/ttyUSB0");
    assert_eq!(state.handle_host_command(&open_cmd), CoordAction::SpawnWorker);
    let notify = state.handle_worker_event(&serial_command("opened", "/dev/ttyUSB0"));
    assert!(!notify);
    assert!(state.current_port_opened);
    assert_eq!(state.current_port_name, "/dev/ttyUSB0");

    assert_eq!(state.handle_host_command(&open_cmd), CoordAction::Ignore);

    let notify = state.handle_worker_event(&serial_command("closed", "/dev/ttyUSB0"));
    assert!(!notify);
    assert!(!state.current_port_opened);
    assert_eq!(state.current_port_name, "");
    assert_eq!(state.handle_host_command(&open_cmd), CoordAction::SpawnWorker);
}

#[test]
fn close_and_wire_commands_are_forwarded() {
    let state = TurtlebotData::new();
    assert_eq!(
        state.handle_host_command(&serial_command("close", "")),
        CoordAction::ForwardToWorker
    );
    let mut base = Command::new();
    base.ty = CommandId::BaseControl;
    base.payload = vec![0xAA, 0x55];
    assert_eq!(state.handle_host_command(&base), CoordAction::ForwardToWorker);
    assert_eq!(
        state.handle_host_command(&serial_command("reopen", "")),
        CoordAction::Ignore
    );
}

#[test]
fn ready_event_notifies_without_state_change() {
    let mut state = TurtlebotData::new();
    state.handle_worker_event(&serial_command("opened", "P"));
    let notify = state.handle_worker_event(&serial_command("ready", ""));
    assert!(notify);
    assert!(state.current_port_opened);
    assert_eq!(state.current_port_name, "P");
}

#[test]
fn worker_close_versus_write() {
    assert_eq!(
        worker_on_command(&serial_command("close", "")),
        WorkerAction::CloseAndExit
    );
    let mut base = Command::new();
    base.ty = CommandId::BaseControl;
    base.payload = vec![1, 2, 3];
    assert_eq!(worker_on_command(&base), WorkerAction::WritePayload);
}

#[test]
fn worker_read_below_threshold_keeps_residue() {
    let out = worker_process_read(&[0xAA, 0x55, 0x00], vec![9, 9]);
    assert!(out.feedbacks.is_empty());
    assert_eq!(out.residue, vec![9, 9]);
    assert!(!out.ready);
}

#[test]
fn worker_read_decodes_and_signals_ready() {
    let mut payload = vec![0x06u8, 0x02, 7, 9];
    let mut frame = vec![0xAAu8, 0x55, payload.len() as u8];
    frame.append(&mut payload);
    let mut crc = 0u8;
    for b in &frame[2..] {
        crc ^= b;
    }
    frame.push(crc);
    let mut stream = vec![0u8; 81 - frame.len()];
    stream.extend_from_slice(&frame);

    let out = worker_process_read(&stream, Vec::new());
    assert_eq!(out.feedbacks.len(), 1);
    assert!(out.feedbacks[0].current.valid);
    assert_eq!(out.feedbacks[0].current.left_motor, 7);
    assert!(out.residue.is_empty());
    assert!(out.ready);
}

#[test]
fn worker_read_without_header_adopts_input_as_residue() {
    // A long read with no preamble at all replaces the residue wholesale.
    let stream = vec![0u8; 81];
    let out = worker_process_read(&stream, vec![0xAA, 0x55, 0x01]);
    assert!(out.feedbacks.is_empty());
    assert_eq!(out.residue, stream);
    assert!(!out.ready);
}

#[test]
fn worker_read_without_frames_is_not_ready() {
    // A long read whose only segment fails validation carries residue and
    // raises no ready signal.
    let mut stream = vec![0u8; 79];
    stream.extend_from_slice(&[0xAA, 0x55]);
    let out = worker_process_read(&stream, Vec::new());
    assert!(out.feedbacks.is_empty());
    assert_eq!(out.residue, vec![0xAA, 0x55]);
    assert!(!out.ready);
}

#[test]
fn receive_drains_in_order() {
    let mut queue: Vec<Feedback> = Vec::new();
    let mut batch = Vec::new();
    let mut a = Feedback::new();
    a.basic_sensor.time_stamp = 1;
    let mut b = Feedback::new();
    b.basic_sensor.time_stamp = 2;
    batch.push(a);
    batch.push(b);
    push_feedbacks(&mut queue, &mut batch);
    assert!(batch.is_empty());
    assert_eq!(queue.len(), 2);

    let drained = receive(&mut queue).unwrap();
    assert_eq!(drained.len(), 2);
    assert_eq!(drained[0].basic_sensor.time_stamp, 1);
    assert_eq!(drained[1].basic_sensor.time_stamp, 2);
    assert!(queue.is_empty());
}

#[test]
fn receive_on_empty_reports_no_feedback() {
    let mut queue: Vec<Feedback> = Vec::new();
    assert!(matches!(receive(&mut queue), Err(ReceiveError::NoFeedback)));
}
