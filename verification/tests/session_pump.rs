use goliath::client::{
    check_cancelled, on_delivery, on_receive_poll, on_send_poll, on_sent, poll_report, Delivery,
    Disconnected, Inbound, LoopControl, LoopExit, PumpEvent, PumpState, ReceivePoll, ReceiveStep,
    SendOutcome, SendPoll, SendStep, TryReceive, COMMAND_QUEUE_CAPACITY, POLL_INTERVAL_MS,
    REPORT_QUEUE_CAPACITY,
};
use goliath::messages::{GoliathCommand, MotorCommand, Scalar};
use goliath::session::{
    control_commands, drain_commands, on_loop_exit, parking_commands, SessionAction,
    SessionEvent, SessionState, MOTOR_QUEUE_CAPACITY,
};
use goliath::video::{
    start_main_loop, stop_main_loop, CaptureFormat, MainLoop, PipelineLifecycle, PushStep,
    StartOutcome, StartStep, StopStep, ZedCamCaps,
};

fn all_events() -> Vec<SessionEvent> {
    vec![
        SessionEvent::Start,
        SessionEvent::PeerClosed,
        SessionEvent::TransportError,
        SessionEvent::ShutdownRequested,
        SessionEvent::TeardownComplete,
    ]
}

fn rank(state: SessionState) -> u8 {
    match state {
        SessionState::Created => 0,
        SessionState::Running => 1,
        SessionState::Draining => 2,
        SessionState::Terminated => 3,
    }
}

#[test]
fn queue_sizes_and_poll_interval() {
    assert_eq!(POLL_INTERVAL_MS, 10);
    assert_eq!(COMMAND_QUEUE_CAPACITY, 10);
    assert_eq!(REPORT_QUEUE_CAPACITY, 10);
    assert_eq!(MOTOR_QUEUE_CAPACITY, 32);
}

#[test]
fn loops_leave_on_cancellation() {
    assert_eq!(check_cancelled(true), LoopControl::Exit(LoopExit::Cancelled));
    assert_eq!(check_cancelled(false), LoopControl::Continue);
}

#[test]
fn keepalive_and_raw_frames_are_ignored() {
    assert_eq!(on_receive_poll(ReceivePoll::TimedOut), ReceiveStep::Ignore);
    assert_eq!(on_receive_poll(ReceivePoll::Message(Inbound::Ping)), ReceiveStep::Ignore);
    assert_eq!(on_receive_poll(ReceivePoll::Message(Inbound::Pong)), ReceiveStep::Ignore);
    assert_eq!(on_receive_poll(ReceivePoll::Message(Inbound::Frame)), ReceiveStep::Ignore);
}

#[test]
fn text_is_dropped_and_binary_is_delivered() {
    assert_eq!(on_receive_poll(ReceivePoll::Message(Inbound::Text)), ReceiveStep::DropText);
    assert_eq!(on_receive_poll(ReceivePoll::Message(Inbound::Binary)), ReceiveStep::Deliver);
}

#[test]
fn close_ends_the_receive_loop_cleanly() {
    assert_eq!(
        on_receive_poll(ReceivePoll::Message(Inbound::Close { has_reason: true })),
        ReceiveStep::Exit { exit: LoopExit::PeerClosed, log_reason: true }
    );
    assert_eq!(
        on_receive_poll(ReceivePoll::Message(Inbound::Close { has_reason: false })),
        ReceiveStep::Exit { exit: LoopExit::PeerClosed, log_reason: false }
    );
    assert!(!LoopExit::PeerClosed.failed());
}

#[test]
fn end_and_failure_of_the_connection_end_the_receive_loop() {
    assert_eq!(
        on_receive_poll(ReceivePoll::Ended),
        ReceiveStep::Exit { exit: LoopExit::StreamEnded, log_reason: false }
    );
    assert_eq!(
        on_receive_poll(ReceivePoll::Failed),
        ReceiveStep::Exit { exit: LoopExit::TransportFailed, log_reason: false }
    );
}

#[test]
fn malformed_frame_does_not_end_the_session() {
    assert_eq!(on_delivery(Delivery::Malformed), LoopControl::Continue);
    assert_eq!(on_delivery(Delivery::Delivered), LoopControl::Continue);
}

#[test]
fn full_or_lost_queue_ends_the_receive_loop() {
    assert_eq!(on_delivery(Delivery::QueueFull), LoopControl::Exit(LoopExit::QueueFull));
    assert_eq!(on_delivery(Delivery::ConsumerGone), LoopControl::Exit(LoopExit::ChannelClosed));
}

#[test]
fn send_loop_sends_what_it_finds() {
    let command = GoliathCommand::Motor(MotorCommand::Thrust(Scalar::from_bits(0x3F00_0000)));
    assert_eq!(on_send_poll(SendPoll::TimedOut), SendStep::Idle);
    assert_eq!(on_send_poll(SendPoll::Command(command)), SendStep::Send(command));
    assert_eq!(on_send_poll(SendPoll::Closed), SendStep::Exit(LoopExit::ChannelClosed));
}

#[test]
fn send_loop_refuses_the_local_sentinel() {
    assert_eq!(
        on_send_poll(SendPoll::Command(GoliathCommand::Motor(MotorCommand::End))),
        SendStep::Exit(LoopExit::EncodeFailed)
    );
}

#[test]
fn send_outcomes() {
    assert_eq!(on_sent(SendOutcome::Written), LoopControl::Continue);
    assert_eq!(on_sent(SendOutcome::EncodeFailed), LoopControl::Exit(LoopExit::EncodeFailed));
    assert_eq!(on_sent(SendOutcome::TransportFailed), LoopControl::Exit(LoopExit::TransportFailed));
}

#[test]
fn exits_are_sorted_into_regular_and_failed() {
    assert!(!LoopExit::Cancelled.failed());
    assert!(!LoopExit::PeerClosed.failed());
    assert!(!LoopExit::StreamEnded.failed());
    assert!(LoopExit::TransportFailed.failed());
    assert!(LoopExit::EncodeFailed.failed());
    assert!(LoopExit::QueueFull.failed());
    assert!(LoopExit::ChannelClosed.failed());
}

#[test]
fn report_queue_answers() {
    assert_eq!(poll_report(TryReceive::Item(7u8)), Ok(Some(7u8)));
    assert_eq!(poll_report(TryReceive::<u8>::Empty), Ok(None));
    assert_eq!(poll_report(TryReceive::<u8>::Disconnected), Err(Disconnected));
}

#[test]
fn cancel_request_sets_the_signal_and_both_exits_stop_the_pump() {
    let mut pump = PumpState::new();
    assert!(!pump.is_cancelled());
    assert!(!pump.is_stopped());
    pump.on_event(PumpEvent::CancelRequested);
    assert!(pump.is_cancelled());
    assert!(!pump.is_stopped());
    assert_eq!(check_cancelled(pump.is_cancelled()), LoopControl::Exit(LoopExit::Cancelled));
    pump.on_event(PumpEvent::ReceiveLoopExited);
    assert!(!pump.is_stopped());
    pump.on_event(PumpEvent::SendLoopExited);
    assert!(pump.is_stopped());
    assert!(pump.is_cancelled());
}

#[test]
fn first_loop_to_exit_cancels_the_other() {
    let mut pump = PumpState::new();
    pump.on_event(PumpEvent::SendLoopExited);
    assert!(pump.is_cancelled());
    assert!(!pump.is_stopped());
    assert_eq!(pump, PumpState { cancelled: true, send_done: true, receive_done: false });
    pump.on_event(PumpEvent::ReceiveLoopExited);
    assert_eq!(pump, PumpState { cancelled: true, send_done: true, receive_done: true });
    assert!(pump.is_stopped());
    pump.on_event(PumpEvent::CancelRequested);
    assert!(pump.is_stopped());
}

#[test]
fn session_runs_through_its_states_in_order() {
    let state = SessionState::Created;
    let (state, action) = state.advance(SessionEvent::Start);
    assert_eq!((state, action), (SessionState::Running, SessionAction::StartAll));
    let (state, action) = state.advance(SessionEvent::PeerClosed);
    assert_eq!((state, action), (SessionState::Draining, SessionAction::Drain));
    let (state, action) = state.advance(SessionEvent::TeardownComplete);
    assert_eq!((state, action), (SessionState::Terminated, SessionAction::Release));
}

#[test]
fn every_stop_reason_drains_a_running_session() {
    for event in [
        SessionEvent::PeerClosed,
        SessionEvent::TransportError,
        SessionEvent::ShutdownRequested,
    ] {
        assert_eq!(
            SessionState::Running.advance(event),
            (SessionState::Draining, SessionAction::Drain)
        );
    }
}

#[test]
fn end_of_the_receive_loop_ends_the_session() {
    assert_eq!(on_loop_exit(LoopExit::PeerClosed), SessionEvent::PeerClosed);
    assert_eq!(on_loop_exit(LoopExit::StreamEnded), SessionEvent::PeerClosed);
    assert_eq!(on_loop_exit(LoopExit::Cancelled), SessionEvent::ShutdownRequested);
    assert_eq!(on_loop_exit(LoopExit::TransportFailed), SessionEvent::TransportError);
    assert_eq!(on_loop_exit(LoopExit::QueueFull), SessionEvent::TransportError);
    assert_eq!(on_loop_exit(LoopExit::ChannelClosed), SessionEvent::TransportError);
    assert_eq!(on_loop_exit(LoopExit::EncodeFailed), SessionEvent::TransportError);
}

#[test]
fn events_out_of_place_change_nothing() {
    assert_eq!(
        SessionState::Created.advance(SessionEvent::PeerClosed),
        (SessionState::Created, SessionAction::Nothing)
    );
    assert_eq!(
        SessionState::Running.advance(SessionEvent::Start),
        (SessionState::Running, SessionAction::Nothing)
    );
    assert_eq!(
        SessionState::Running.advance(SessionEvent::TeardownComplete),
        (SessionState::Running, SessionAction::Nothing)
    );
    assert_eq!(
        SessionState::Draining.advance(SessionEvent::ShutdownRequested),
        (SessionState::Draining, SessionAction::Nothing)
    );
}

#[test]
fn terminated_session_is_never_entered_again() {
    for event in all_events() {
        assert_eq!(
            SessionState::Terminated.advance(event),
            (SessionState::Terminated, SessionAction::Nothing)
        );
    }
}

#[test]
fn session_never_goes_back() {
    for state in [
        SessionState::Created,
        SessionState::Running,
        SessionState::Draining,
        SessionState::Terminated,
    ] {
        for event in all_events() {
            let (next, action) = state.advance(event);
            assert!(rank(next) == rank(state) || rank(next) == rank(state) + 1);
            assert_eq!(next == state, action == SessionAction::Nothing);
        }
    }
}

#[test]
fn draining_puts_the_vehicle_at_rest_then_ends_the_controller() {
    assert_eq!(
        drain_commands(),
        [
            MotorCommand::Thrust(Scalar::from_bits(0)),
            MotorCommand::Steer(Scalar::from_bits(0)),
            MotorCommand::End,
        ]
    );
}

#[test]
fn operator_sends_thrust_then_steer() {
    let thrust = Scalar::from_bits(0.5f32.to_bits());
    let steer = Scalar::from_bits((-0.25f32).to_bits());
    assert_eq!(
        control_commands(thrust, steer),
        [
            GoliathCommand::Motor(MotorCommand::Thrust(thrust)),
            GoliathCommand::Motor(MotorCommand::Steer(steer)),
        ]
    );
    assert_eq!(
        parking_commands(),
        [
            GoliathCommand::Motor(MotorCommand::Thrust(Scalar::from_bits(0))),
            GoliathCommand::Motor(MotorCommand::Steer(Scalar::from_bits(0))),
        ]
    );
}

#[test]
fn main_loop_is_entered_once_and_quit_once() {
    let mut main_loop = MainLoop::new();
    assert!(!main_loop.is_running());
    assert!(!stop_main_loop(&mut main_loop));
    assert!(start_main_loop(&mut main_loop));
    assert!(main_loop.is_running());
    assert!(!start_main_loop(&mut main_loop));
    assert!(main_loop.is_running());
    assert!(stop_main_loop(&mut main_loop));
    assert!(!main_loop.is_running());
    assert!(!stop_main_loop(&mut main_loop));
    assert!(start_main_loop(&mut main_loop));
}

#[test]
fn pipeline_starts_with_its_first_frame() {
    let mut pipeline = PipelineLifecycle::new();
    assert_eq!(pipeline.before_push(), PushStep::StartFirst);
    assert_eq!(pipeline.begin_start(), StartStep::Play);
    assert_eq!(pipeline.finish_start(true), StartOutcome::Started);
    assert_eq!(pipeline.before_push(), PushStep::Push);
    assert_eq!(pipeline, PipelineLifecycle { started: true, stopped: false });
}

#[test]
fn failed_start_is_rolled_back() {
    let mut pipeline = PipelineLifecycle::new();
    assert_eq!(pipeline.finish_start(false), StartOutcome::RollBack);
    assert_eq!(pipeline, PipelineLifecycle { started: false, stopped: false });
    assert_eq!(pipeline.before_push(), PushStep::StartFirst);
}

#[test]
fn stopped_pipeline_is_not_started_again() {
    let mut pipeline = PipelineLifecycle::new();
    pipeline.finish_start(true);
    assert_eq!(pipeline.stop(), StopStep::Halt);
    assert_eq!(pipeline.stop(), StopStep::AlreadyStopped);
    assert_eq!(pipeline.begin_start(), StartStep::Refuse);
    assert_eq!(pipeline, PipelineLifecycle { started: true, stopped: true });
}

#[test]
fn camera_formats() {
    assert_eq!(
        ZedCamCaps::UHD2K15.get_caps(),
        CaptureFormat { width: 4416, height: 1242, frames_per_second: 15 }
    );
    assert_eq!(
        ZedCamCaps::FHD1080P30.get_caps(),
        CaptureFormat { width: 3840, height: 1080, frames_per_second: 30 }
    );
    assert_eq!(
        ZedCamCaps::FHD1080P15.get_caps(),
        CaptureFormat { width: 3840, height: 1080, frames_per_second: 15 }
    );
    assert_eq!(
        ZedCamCaps::HD720P60.get_caps(),
        CaptureFormat { width: 2560, height: 720, frames_per_second: 60 }
    );
    assert_eq!(
        ZedCamCaps::HD720P30.get_caps(),
        CaptureFormat { width: 2560, height: 720, frames_per_second: 30 }
    );
    assert_eq!(
        ZedCamCaps::HD720P15.get_caps(),
        CaptureFormat { width: 2560, height: 720, frames_per_second: 15 }
    );
    assert_eq!(
        ZedCamCaps::NOHD100.get_caps(),
        CaptureFormat { width: 1344, height: 376, frames_per_second: 100 }
    );
    assert_eq!(
        ZedCamCaps::NOHD60.get_caps(),
        CaptureFormat { width: 1344, height: 376, frames_per_second: 60 }
    );
    assert_eq!(
        ZedCamCaps::NOHD30.get_caps(),
        CaptureFormat { width: 1344, height: 376, frames_per_second: 30 }
    );
    assert_eq!(
        ZedCamCaps::NOHD15.get_caps(),
        CaptureFormat { width: 1344, height: 376, frames_per_second: 15 }
    );
}
