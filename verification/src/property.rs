//! The scanner's configuration options.
//!
//! Every option has a place in the vendor's option table and a value of one
//! of four kinds. The table is fixed: an option's kind follows from its place
//! and never from the value that a caller happens to pass.

use vstd::prelude::*;
use vstd::string::StringSliceAdditionalSpecFns;
use crate::marshal::{bool_bytes, int_bytes, word_bytes, BOOL_WIDTH, WORD_WIDTH};

verus! {

/// The kind of value that an option takes.
#[derive(Clone, Copy, Debug, PartialEq, Eq, Structural)]
pub enum ValueKind {
    /// A C string, which the device keeps a pointer to.
    Text,
    /// A 32-bit signed integer.
    Int,
    /// A 32-bit IEEE-754 float.
    Float,
    /// A one-byte boolean.
    Bool,
}

/// An option's place in the vendor's option table.
#[derive(Clone, Copy, Debug, PartialEq, Eq, Structural)]
pub enum PropertyIndex {
    SerialPort,
    IgnoreArray,
    SerialBaudRate,
    LidarType,
    DeviceType,
    SampleRate,
    AbnormalCheckCount,
    IntensityBit,
    MaxRange,
    MinRange,
    MaxAngle,
    MinAngle,
    ScanFrequency,
    FixedResolution,
    Reversion,
    Inverted,
    AutoReconnect,
    SingleChannel,
    Intensity,
    SupportMotorDtrCtrl,
    SupportHeartBeat,
}

impl PropertyIndex {
    /// The kind of value that the option at this place takes.
    pub open spec fn spec_kind(self) -> ValueKind {
        match self {
            PropertyIndex::SerialPort | PropertyIndex::IgnoreArray => ValueKind::Text,
            PropertyIndex::SerialBaudRate
            | PropertyIndex::LidarType
            | PropertyIndex::DeviceType
            | PropertyIndex::SampleRate
            | PropertyIndex::AbnormalCheckCount
            | PropertyIndex::IntensityBit => ValueKind::Int,
            PropertyIndex::MaxRange
            | PropertyIndex::MinRange
            | PropertyIndex::MaxAngle
            | PropertyIndex::MinAngle
            | PropertyIndex::ScanFrequency => ValueKind::Float,
            PropertyIndex::FixedResolution
            | PropertyIndex::Reversion
            | PropertyIndex::Inverted
            | PropertyIndex::AutoReconnect
            | PropertyIndex::SingleChannel
            | PropertyIndex::Intensity
            | PropertyIndex::SupportMotorDtrCtrl
            | PropertyIndex::SupportHeartBeat => ValueKind::Bool,
        }
    }

    /// The kind of value that the option at this place takes.
    #[verifier::when_used_as_spec(spec_kind)]
    pub fn kind(self) -> (kind: ValueKind)
        ensures
            kind == self.spec_kind(),
    {
        match self {
            PropertyIndex::SerialPort | PropertyIndex::IgnoreArray => ValueKind::Text,
            PropertyIndex::SerialBaudRate
            | PropertyIndex::LidarType
            | PropertyIndex::DeviceType
            | PropertyIndex::SampleRate
            | PropertyIndex::AbnormalCheckCount
            | PropertyIndex::IntensityBit => ValueKind::Int,
            PropertyIndex::MaxRange
            | PropertyIndex::MinRange
            | PropertyIndex::MaxAngle
            | PropertyIndex::MinAngle
            | PropertyIndex::ScanFrequency => ValueKind::Float,
            PropertyIndex::FixedResolution
            | PropertyIndex::Reversion
            | PropertyIndex::Inverted
            | PropertyIndex::AutoReconnect
            | PropertyIndex::SingleChannel
            | PropertyIndex::Intensity
            | PropertyIndex::SupportMotorDtrCtrl
            | PropertyIndex::SupportHeartBeat => ValueKind::Bool,
        }
    }
}

impl ValueKind {
    /// The number of bytes that a value of this kind takes on the wire, for
    /// the kinds whose width is fixed.
    pub open spec fn spec_width(self) -> Option<usize> {
        match self {
            ValueKind::Text => None,
            ValueKind::Int => Some(WORD_WIDTH),
            ValueKind::Float => Some(WORD_WIDTH),
            ValueKind::Bool => Some(BOOL_WIDTH),
        }
    }

    /// The number of bytes that a value of this kind takes on the wire:
    /// four for an integer or a float, one for a boolean, and nothing fixed
    /// for a string.
    #[verifier::when_used_as_spec(spec_width)]
    pub fn width(self) -> (width: Option<usize>)
        ensures
            width == self.spec_width(),
    {
        match self {
            ValueKind::Text => None,
            ValueKind::Int => Some(WORD_WIDTH),
            ValueKind::Float => Some(WORD_WIDTH),
            ValueKind::Bool => Some(BOOL_WIDTH),
        }
    }
}

/// One configuration option with its value.
///
/// A float is held as its IEEE-754 single-precision bit pattern.
#[derive(Clone, Copy, Debug, PartialEq)]
pub enum LidarProperty<'a> {
    /// Path of the serial port, or the network address.
    SerialPort(&'a str),
    /// Angle ranges to leave out, as the vendor's comma-separated list.
    IgnoreArray(&'a str),
    /// Baud rate of the serial port, or the network port.
    SerialBaudRate(i32),
    /// Code of the scanner's family.
    LidarType(i32),
    /// Code of the connection type.
    DeviceType(i32),
    /// Sample rate.
    SampleRate(i32),
    /// How many abnormal scans are tolerated at start-up.
    AbnormalCheckCount(i32),
    /// Bit depth of the intensity values.
    IntensityBit(i32),
    /// Largest range reported, in metres.
    MaxRange(u32),
    /// Smallest range reported, in metres.
    MinRange(u32),
    /// Largest angle reported, in degrees.
    MaxAngle(u32),
    /// Smallest angle reported, in degrees.
    MinAngle(u32),
    /// Scan frequency, in hertz.
    ScanFrequency(u32),
    /// Whether the angular resolution is fixed.
    FixedResolution(bool),
    /// Whether the scan is rotated by half a turn.
    Reversion(bool),
    /// Whether the scan is mirrored.
    Inverted(bool),
    /// Whether the connection is restored after a loss.
    AutoReconnect(bool),
    /// Whether the scanner talks over a single channel.
    SingleChannel(bool),
    /// Whether intensities are reported.
    Intensity(bool),
    /// Whether the motor is controlled over the DTR line.
    SupportMotorDtrCtrl(bool),
    /// Whether the scanner supports heartbeats.
    SupportHeartBeat(bool),
}

impl<'a> LidarProperty<'a> {
    /// The option's place in the vendor's table.
    pub open spec fn spec_index(self) -> PropertyIndex {
        match self {
            LidarProperty::SerialPort(_) => PropertyIndex::SerialPort,
            LidarProperty::IgnoreArray(_) => PropertyIndex::IgnoreArray,
            LidarProperty::SerialBaudRate(_) => PropertyIndex::SerialBaudRate,
            LidarProperty::LidarType(_) => PropertyIndex::LidarType,
            LidarProperty::DeviceType(_) => PropertyIndex::DeviceType,
            LidarProperty::SampleRate(_) => PropertyIndex::SampleRate,
            LidarProperty::AbnormalCheckCount(_) => PropertyIndex::AbnormalCheckCount,
            LidarProperty::IntensityBit(_) => PropertyIndex::IntensityBit,
            LidarProperty::MaxRange(_) => PropertyIndex::MaxRange,
            LidarProperty::MinRange(_) => PropertyIndex::MinRange,
            LidarProperty::MaxAngle(_) => PropertyIndex::MaxAngle,
            LidarProperty::MinAngle(_) => PropertyIndex::MinAngle,
            LidarProperty::ScanFrequency(_) => PropertyIndex::ScanFrequency,
            LidarProperty::FixedResolution(_) => PropertyIndex::FixedResolution,
            LidarProperty::Reversion(_) => PropertyIndex::Reversion,
            LidarProperty::Inverted(_) => PropertyIndex::Inverted,
            LidarProperty::AutoReconnect(_) => PropertyIndex::AutoReconnect,
            LidarProperty::SingleChannel(_) => PropertyIndex::SingleChannel,
            LidarProperty::Intensity(_) => PropertyIndex::Intensity,
            LidarProperty::SupportMotorDtrCtrl(_) => PropertyIndex::SupportMotorDtrCtrl,
            LidarProperty::SupportHeartBeat(_) => PropertyIndex::SupportHeartBeat,
        }
    }

    /// The kind of the value that this option carries.
    pub open spec fn carried_kind(self) -> ValueKind {
        match self {
            LidarProperty::SerialPort(_) | LidarProperty::IgnoreArray(_) => ValueKind::Text,
            LidarProperty::SerialBaudRate(_)
            | LidarProperty::LidarType(_)
            | LidarProperty::DeviceType(_)
            | LidarProperty::SampleRate(_)
            | LidarProperty::AbnormalCheckCount(_)
            | LidarProperty::IntensityBit(_) => ValueKind::Int,
            LidarProperty::MaxRange(_)
            | LidarProperty::MinRange(_)
            | LidarProperty::MaxAngle(_)
            | LidarProperty::MinAngle(_)
            | LidarProperty::ScanFrequency(_) => ValueKind::Float,
            LidarProperty::FixedResolution(_)
            | LidarProperty::Reversion(_)
            | LidarProperty::Inverted(_)
            | LidarProperty::AutoReconnect(_)
            | LidarProperty::SingleChannel(_)
            | LidarProperty::Intensity(_)
            | LidarProperty::SupportMotorDtrCtrl(_)
            | LidarProperty::SupportHeartBeat(_) => ValueKind::Bool,
        }
    }

    /// The bytes of the value as the device reads them: a string's bytes
    /// without the terminator, four bytes for an integer or a float, one for
    /// a boolean.
    pub open spec fn value_bytes(self) -> Seq<u8> {
        match self {
            LidarProperty::SerialPort(s) | LidarProperty::IgnoreArray(s) => s.spec_bytes(),
            LidarProperty::SerialBaudRate(v)
            | LidarProperty::LidarType(v)
            | LidarProperty::DeviceType(v)
            | LidarProperty::SampleRate(v)
            | LidarProperty::AbnormalCheckCount(v)
            | LidarProperty::IntensityBit(v) => int_bytes(v),
            LidarProperty::MaxRange(w)
            | LidarProperty::MinRange(w)
            | LidarProperty::MaxAngle(w)
            | LidarProperty::MinAngle(w)
            | LidarProperty::ScanFrequency(w) => word_bytes(w),
            LidarProperty::FixedResolution(b)
            | LidarProperty::Reversion(b)
            | LidarProperty::Inverted(b)
            | LidarProperty::AutoReconnect(b)
            | LidarProperty::SingleChannel(b)
            | LidarProperty::Intensity(b)
            | LidarProperty::SupportMotorDtrCtrl(b)
            | LidarProperty::SupportHeartBeat(b) => bool_bytes(b),
        }
    }

    /// The option's place in the vendor's table.
    #[verifier::when_used_as_spec(spec_index)]
    pub fn index(self) -> (index: PropertyIndex)
        ensures
            index == self.spec_index(),
            index.spec_kind() == self.carried_kind(),
    {
        match self {
            LidarProperty::SerialPort(_) => PropertyIndex::SerialPort,
            LidarProperty::IgnoreArray(_) => PropertyIndex::IgnoreArray,
            LidarProperty::SerialBaudRate(_) => PropertyIndex::SerialBaudRate,
            LidarProperty::LidarType(_) => PropertyIndex::LidarType,
            LidarProperty::DeviceType(_) => PropertyIndex::DeviceType,
            LidarProperty::SampleRate(_) => PropertyIndex::SampleRate,
            LidarProperty::AbnormalCheckCount(_) => PropertyIndex::AbnormalCheckCount,
            LidarProperty::IntensityBit(_) => PropertyIndex::IntensityBit,
            LidarProperty::MaxRange(_) => PropertyIndex::MaxRange,
            LidarProperty::MinRange(_) => PropertyIndex::MinRange,
            LidarProperty::MaxAngle(_) => PropertyIndex::MaxAngle,
            LidarProperty::MinAngle(_) => PropertyIndex::MinAngle,
            LidarProperty::ScanFrequency(_) => PropertyIndex::ScanFrequency,
            LidarProperty::FixedResolution(_) => PropertyIndex::FixedResolution,
            LidarProperty::Reversion(_) => PropertyIndex::Reversion,
            LidarProperty::Inverted(_) => PropertyIndex::Inverted,
            LidarProperty::AutoReconnect(_) => PropertyIndex::AutoReconnect,
            LidarProperty::SingleChannel(_) => PropertyIndex::SingleChannel,
            LidarProperty::Intensity(_) => PropertyIndex::Intensity,
            LidarProperty::SupportMotorDtrCtrl(_) => PropertyIndex::SupportMotorDtrCtrl,
            LidarProperty::SupportHeartBeat(_) => PropertyIndex::SupportHeartBeat,
        }
    }
}

} // verus!
