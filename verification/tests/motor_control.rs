use goliath::messages::{GoliathCommand, MotorCommand, Route, Scalar, ONE_BITS, SIGN_BIT};
use goliath::motors::{ChannelPoll, MotorAction, MotorsController, TracksDriver, FLUSH_EVERY};

fn scalar(value: f32) -> Scalar {
    Scalar::from_bits(value.to_bits())
}

fn thrust(value: f32) -> ChannelPoll {
    ChannelPoll::Command(MotorCommand::Thrust(scalar(value)))
}

fn steer(value: f32) -> ChannelPoll {
    ChannelPoll::Command(MotorCommand::Steer(scalar(value)))
}

fn value_of(scalar: Scalar) -> f32 {
    f32::from_bits(scalar.to_bits())
}

#[test]
fn scalar_keeps_its_bits() {
    for bits in [0u32, 1, 0x3F80_0000, 0xBF80_0000, 0x7FC0_0000, u32::MAX] {
        assert_eq!(Scalar::from_bits(bits).to_bits(), bits);
    }
    assert_eq!(Scalar::new_zero().to_bits(), 0);
    assert_eq!(ONE_BITS, 1.0f32.to_bits());
    assert_eq!(SIGN_BIT, (-0.0f32).to_bits());
}

#[test]
fn unit_range_test_agrees_with_the_numbers() {
    let samples = [
        0.0f32,
        -0.0,
        0.25,
        -0.25,
        0.999_999_94,
        -0.999_999_94,
        1.0,
        -1.0,
        1.000_000_1,
        -1.000_000_1,
        1.5,
        -2.0,
        f32::MIN_POSITIVE,
        -f32::MIN_POSITIVE,
        1e-45,
        f32::MAX,
        f32::MIN,
        f32::INFINITY,
        f32::NEG_INFINITY,
        f32::NAN,
        -f32::NAN,
    ];
    for sample in samples {
        assert_eq!(
            scalar(sample).is_in_unit_range(),
            (-1.0..=1.0).contains(&sample),
            "{sample}"
        );
    }
}

#[test]
fn unit_range_test_agrees_with_the_numbers_across_patterns() {
    let mut bits = 0u32;
    loop {
        let value = f32::from_bits(bits);
        assert_eq!(Scalar::from_bits(bits).is_in_unit_range(), (-1.0..=1.0).contains(&value));
        match bits.checked_add(0x0001_2345) {
            Some(next) => bits = next,
            None => break,
        }
    }
}

#[test]
fn commands_in_and_out_of_range() {
    assert!(MotorCommand::Thrust(scalar(1.0)).is_in_range());
    assert!(MotorCommand::Steer(scalar(-1.0)).is_in_range());
    assert!(!MotorCommand::Thrust(scalar(1.5)).is_in_range());
    assert!(!MotorCommand::Steer(scalar(f32::NAN)).is_in_range());
    assert!(MotorCommand::TurretAngle(scalar(270.0)).is_in_range());
    assert!(MotorCommand::End.is_in_range());
}

#[test]
fn end_never_goes_on_the_wire() {
    assert!(!MotorCommand::End.is_on_wire());
    assert!(MotorCommand::Thrust(scalar(0.5)).is_on_wire());
    assert!(MotorCommand::Steer(scalar(0.5)).is_on_wire());
    assert!(MotorCommand::TurretAngle(scalar(0.5)).is_on_wire());
    assert!(!GoliathCommand::Motor(MotorCommand::End).is_on_wire());
    assert!(GoliathCommand::Motor(MotorCommand::Steer(scalar(0.0))).is_on_wire());
}

#[test]
fn motor_commands_are_routed_to_the_motors() {
    let command = MotorCommand::Thrust(scalar(0.75));
    assert_eq!(GoliathCommand::Motor(command).route(), Route::Motors(command));
    assert_eq!(GoliathCommand::Motor(MotorCommand::End).route(), Route::Motors(MotorCommand::End));
}

#[test]
fn tracks_start_at_rest_and_take_values() {
    let mut tracks = TracksDriver::new();
    assert_eq!(value_of(tracks.thrust()), 0.0);
    assert_eq!(value_of(tracks.steer()), 0.0);
    tracks.set_thrust(scalar(0.5));
    assert_eq!(value_of(tracks.thrust()), 0.5);
    assert_eq!(value_of(tracks.steer()), 0.0);
    tracks.set_steer(scalar(-1.0));
    assert_eq!(value_of(tracks.thrust()), 0.5);
    assert_eq!(value_of(tracks.steer()), -1.0);
}

#[test]
fn twelve_commands_in_a_burst_flush_after_the_fifth_and_tenth() {
    assert_eq!(FLUSH_EVERY, 5);
    let mut controller = MotorsController::new();
    let mut flushed_after = Vec::new();
    for number in 1..=12 {
        let poll = if number % 2 == 0 { steer(0.1) } else { thrust(0.2) };
        match controller.on_poll(poll) {
            MotorAction::Flush => flushed_after.push(number),
            MotorAction::Wait => {}
            other => panic!("unexpected {other:?}"),
        }
    }
    assert_eq!(flushed_after, vec![5, 10]);
    assert_eq!(controller.on_poll(ChannelPoll::Empty), MotorAction::Flush);
    assert_eq!(controller.on_poll(ChannelPoll::Empty), MotorAction::Wait);
}

#[test]
fn ten_commands_leave_nothing_for_the_empty_poll() {
    let mut controller = MotorsController::new();
    let mut flushes = 0;
    for _ in 0..10 {
        if controller.on_poll(thrust(0.3)) == MotorAction::Flush {
            flushes += 1;
        }
    }
    assert_eq!(flushes, 2);
    assert_eq!(controller.on_poll(ChannelPoll::Empty), MotorAction::Wait);
}

#[test]
fn empty_poll_flushes_a_single_pending_command() {
    let mut controller = MotorsController::new();
    assert_eq!(controller.on_poll(ChannelPoll::Empty), MotorAction::Wait);
    assert_eq!(controller.on_poll(steer(0.4)), MotorAction::Wait);
    assert_eq!(controller.on_poll(ChannelPoll::Empty), MotorAction::Flush);
    assert_eq!(value_of(controller.tracks().steer()), 0.4);
}

#[test]
fn empty_poll_starts_a_new_count() {
    let mut controller = MotorsController::new();
    for _ in 0..4 {
        assert_eq!(controller.on_poll(thrust(0.1)), MotorAction::Wait);
    }
    assert_eq!(controller.on_poll(ChannelPoll::Empty), MotorAction::Flush);
    for _ in 0..4 {
        assert_eq!(controller.on_poll(thrust(0.2)), MotorAction::Wait);
    }
    assert_eq!(controller.on_poll(thrust(0.3)), MotorAction::Flush);
}

#[test]
fn turret_commands_count_but_change_nothing() {
    let mut controller = MotorsController::new();
    for _ in 0..5 {
        assert_eq!(
            controller.on_poll(ChannelPoll::Command(MotorCommand::TurretAngle(scalar(30.0)))),
            MotorAction::Wait
        );
    }
    assert_eq!(controller.on_poll(ChannelPoll::Empty), MotorAction::Wait);
    assert_eq!(controller.on_poll(thrust(0.5)), MotorAction::Wait);
    for _ in 0..3 {
        assert_eq!(
            controller.on_poll(ChannelPoll::Command(MotorCommand::TurretAngle(scalar(30.0)))),
            MotorAction::Wait
        );
    }
    assert_eq!(
        controller.on_poll(ChannelPoll::Command(MotorCommand::TurretAngle(scalar(30.0)))),
        MotorAction::Flush
    );
}

#[test]
fn latest_values_are_the_ones_flushed() {
    let mut controller = MotorsController::new();
    controller.on_poll(thrust(0.1));
    controller.on_poll(thrust(0.9));
    controller.on_poll(steer(-0.5));
    assert_eq!(controller.on_poll(ChannelPoll::Empty), MotorAction::Flush);
    let tracks = controller.tracks();
    assert_eq!(value_of(tracks.thrust()), 0.9);
    assert_eq!(value_of(tracks.steer()), -0.5);
}

#[test]
fn end_stops_the_tracks_and_shuts_down() {
    let mut controller = MotorsController::new();
    controller.on_poll(thrust(1.0));
    controller.on_poll(steer(-1.0));
    assert_eq!(controller.on_poll(ChannelPoll::Command(MotorCommand::End)), MotorAction::Shutdown);
    let tracks = controller.tracks();
    assert_eq!(tracks.thrust().to_bits(), 0);
    assert_eq!(tracks.steer().to_bits(), 0);
    assert_eq!(controller.on_poll(ChannelPoll::Empty), MotorAction::Wait);
}

#[test]
fn end_shuts_down_a_fresh_controller_too() {
    let mut controller = MotorsController::new();
    assert_eq!(controller.on_poll(ChannelPoll::Command(MotorCommand::End)), MotorAction::Shutdown);
}

#[test]
fn lost_channel_is_an_emergency_stop() {
    let mut controller = MotorsController::new();
    controller.on_poll(thrust(-0.7));
    assert_eq!(controller.on_poll(ChannelPoll::Disconnected), MotorAction::EmergencyStop);
    let tracks = controller.tracks();
    assert_eq!(tracks.thrust().to_bits(), 0);
    assert_eq!(tracks.steer().to_bits(), 0);
}
