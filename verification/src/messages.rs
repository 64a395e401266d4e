//! The commands an operator sends to the vehicle.
//!
//! A command carries single-precision numbers. This library never computes with
//! them; it keeps each as its IEEE 754 bit pattern and only asks of a pattern
//! what can be read off its bits: whether the number is zero, and whether it
//! lies between -1 and 1.

use vstd::prelude::*;

verus! {

/// The bit pattern of 1.0.
pub const ONE_BITS: u32 = 0x3F80_0000;

/// The sign bit of a pattern.
pub const SIGN_BIT: u32 = 0x8000_0000;

/// A single-precision number, held as its bit pattern.
#[derive(Copy, Clone, Debug, PartialEq, Eq)]
pub struct Scalar {
    pub bits: u32,
}

impl Scalar {
    /// The pattern without its sign: the pattern of the absolute value.
    pub open spec fn magnitude(self) -> int {
        self.bits as int % 0x8000_0000
    }

    /// Whether the number lies in `[-1, 1]`.
    ///
    /// Patterns of non-negative numbers are ordered like the numbers, so the
    /// absolute value is at most 1 exactly when its pattern is at most that of
    /// 1.0. Infinities and NaNs have larger patterns and are outside.
    pub open spec fn in_unit_range(self) -> bool {
        self.magnitude() <= ONE_BITS
    }

    /// Whether the number is zero, of either sign.
    pub open spec fn is_zero(self) -> bool {
        self.magnitude() == 0
    }

    /// Positive zero.
    pub open spec fn zero() -> Scalar {
        Scalar { bits: 0 }
    }

    pub fn from_bits(bits: u32) -> (scalar: Self)
        ensures
            scalar.bits == bits,
    {
        Scalar { bits }
    }

    pub fn to_bits(self) -> (bits: u32)
        ensures
            bits == self.bits,
    {
        self.bits
    }

    /// Positive zero.
    pub fn new_zero() -> (scalar: Self)
        ensures
            scalar == Scalar::zero(),
            scalar.is_zero(),
            scalar.in_unit_range(),
    {
        Scalar { bits: 0 }
    }

    /// Tests whether the number lies in `[-1, 1]`.
    pub fn is_in_unit_range(self) -> (inside: bool)
        ensures
            inside == self.in_unit_range(),
    {
        let bits = self.bits;
        let magnitude = bits & !SIGN_BIT;
        assert(magnitude == bits % 0x8000_0000) by (bit_vector)
            requires
                magnitude == bits & !0x8000_0000u32,
        ;
        magnitude <= ONE_BITS
    }
}

/// A command for the motors.
#[derive(Copy, Clone, Debug, PartialEq, Eq)]
pub enum MotorCommand {
    /// Forward power of the tracks, in `[-1, 1]`.
    Thrust(Scalar),
    /// Share of the power that goes into turning, in `[-1, 1]`.
    Steer(Scalar),
    TurretAngle(Scalar),
    /// Ends the motor controller. It is made locally and never sent.
    End,
}

impl MotorCommand {
    /// Whether the command may leave the process: everything but `End`.
    pub open spec fn on_wire(self) -> bool {
        !(self is End)
    }

    /// Whether the command keeps thrust and steer in `[-1, 1]`.
    pub open spec fn in_range(self) -> bool {
        match self {
            MotorCommand::Thrust(thrust) => thrust.in_unit_range(),
            MotorCommand::Steer(steer) => steer.in_unit_range(),
            MotorCommand::TurretAngle(_) => true,
            MotorCommand::End => true,
        }
    }

    pub fn is_on_wire(&self) -> (sendable: bool)
        ensures
            sendable == self.on_wire(),
    {
        match self {
            MotorCommand::End => false,
            _ => true,
        }
    }

    pub fn is_in_range(&self) -> (inside: bool)
        ensures
            inside == self.in_range(),
    {
        match self {
            MotorCommand::Thrust(thrust) => thrust.is_in_unit_range(),
            MotorCommand::Steer(steer) => steer.is_in_unit_range(),
            MotorCommand::TurretAngle(_) => true,
            MotorCommand::End => true,
        }
    }
}

/// What travels from the operator to the vehicle.
#[derive(Copy, Clone, Debug, PartialEq, Eq)]
pub enum GoliathCommand {
    Motor(MotorCommand),
}

/// Where a received command goes.
#[derive(Copy, Clone, Debug, PartialEq, Eq)]
pub enum Route {
    /// To the motor controller's channel.
    Motors(MotorCommand),
}

impl GoliathCommand {
    /// Whether the command may be encoded for the wire.
    pub open spec fn on_wire(self) -> bool {
        match self {
            GoliathCommand::Motor(command) => command.on_wire(),
        }
    }

    pub fn is_on_wire(&self) -> (sendable: bool)
        ensures
            sendable == self.on_wire(),
    {
        match self {
            GoliathCommand::Motor(command) => command.is_on_wire(),
        }
    }

    /// Picks the component that handles the command.
    pub fn route(self) -> (route: Route)
        ensures
            route == (match self {
                GoliathCommand::Motor(command) => Route::Motors(command),
            }),
    {
        match self {
            GoliathCommand::Motor(command) => Route::Motors(command),
        }
    }
}

} // verus!
