//! The session with one scanner.
//!
//! The device library is driven by an exchange. An operation of the session
//! answers with the [`NativeCall`] to make. The caller makes it on the
//! device's handle and hands the [`NativeReply`] to [`Ydlidar::resume`],
//! which answers with a further call or with the operation's result.
//!
//! The session owns the two buffers behind the string options. The device
//! library keeps the pointer it is given for a string option, so a string is
//! always handed over as the session's own buffer, which is replaced before
//! the call that shares it and stays as it is until the same option is set
//! again. At the end of the session the buffers are handed out with the call
//! that destroys the handle, so that they are dropped after it and not
//! before.

use vstd::prelude::*;
use vstd::string::StringSliceAdditionalSpecFns;
use crate::error::LidarError;
use crate::marshal::{
    bool_bytes, c_text, encode_bool, encode_int, encode_word, holds_no_nul, int_bytes,
    is_c_string, is_c_text, terminate, word_bytes, BOOL_WIDTH, WORD_WIDTH,
};
use crate::property::{LidarProperty, PropertyIndex, ValueKind};
use crate::scan::{LaserFan, LaserScan, ScanModel};

verus! {

/// One of the session's two string buffers.
#[derive(Clone, Copy, Debug, PartialEq, Eq, Structural)]
pub enum ConfigSlot {
    /// The buffer behind the serial port option.
    SerialPort,
    /// The buffer behind the ignore array option.
    IgnoreArray,
}

/// Where the bytes of an option's value lie.
#[derive(Clone, Debug, PartialEq, Eq)]
pub enum Payload {
    /// In the call itself. The device library copies them before it returns.
    Inline(Vec<u8>),
    /// In one of the session's buffers. The device library keeps the pointer.
    Held(ConfigSlot),
}

/// A call to make on the device's handle.
#[derive(Clone, Debug, PartialEq, Eq)]
pub enum NativeCall {
    /// Set the option at `index` from `len` bytes of `payload`.
    SetOption { index: PropertyIndex, payload: Payload, len: usize },
    /// Check the configuration and open the connection.
    Initialize,
    /// Close the connection.
    Disconnect,
    /// Start the motor and the stream of scans.
    TurnOn,
    /// Stop the motor and the stream of scans.
    TurnOff,
    /// Fetch the next processed scan.
    ProcessSimple,
    /// Ask for the description of the last error.
    DescribeError,
    /// Destroy the handle.
    Destroy,
}

/// What a call on the device's handle gave back.
#[derive(Clone, Debug, PartialEq, Eq)]
pub enum NativeReply {
    /// The call reported success (`true`) or failure (`false`).
    Flag(bool),
    /// The call reported success and filled this descriptor.
    Scan(LaserFan),
    /// The description that was asked for.
    Text(String),
    /// The call returned, and it returns nothing.
    Returned,
}

/// What a successful operation yields.
#[derive(Clone, Debug, PartialEq, Eq)]
pub enum Completion {
    /// Nothing.
    Unit,
    /// A scan.
    Scan(LaserScan),
}

/// How an operation goes on after a reply.
#[derive(Debug, PartialEq, Eq)]
pub enum Step {
    /// With a further call.
    Call(NativeCall),
    /// It is over, with this result.
    Done(Result<Completion, LidarError>),
    /// The reply does not answer the call that the session is waiting on.
    Unexpected,
}

/// What the session is waiting on.
#[derive(Clone, Copy, Debug, PartialEq, Eq, Structural)]
pub enum Pending {
    /// Nothing: no operation is under way.
    Idle,
    /// The flag of a call that reports success or failure.
    Flag,
    /// The outcome of fetching a scan.
    Scan,
    /// The description of the failure just reported.
    Text,
    /// The return of a call that reports nothing.
    Return,
}

/// A payload as a value.
pub ghost enum PayloadModel {
    Inline(Seq<u8>),
    Held(ConfigSlot),
}

/// A call as a value.
pub ghost enum CallModel {
    SetOption { index: PropertyIndex, payload: PayloadModel, len: int },
    Initialize,
    Disconnect,
    TurnOn,
    TurnOff,
    ProcessSimple,
    DescribeError,
    Destroy,
}

/// A step as a value.
pub ghost enum Outcome {
    /// A further call.
    Call(CallModel),
    /// Success, with nothing to yield.
    Completed,
    /// Success, with a scan.
    Scanned(ScanModel),
    /// Failure, with the device library's description.
    Failed(Seq<char>),
    /// The reply was not the awaited one.
    Unexpected,
}

/// A session as a value: what its two buffers hold, and what it waits on.
pub ghost struct Session {
    pub lidar_port: Seq<u8>,
    pub ignore_array: Seq<u8>,
    pub pending: Pending,
}

impl View for Payload {
    type V = PayloadModel;

    open spec fn view(&self) -> PayloadModel {
        match self {
            Payload::Inline(bytes) => PayloadModel::Inline(bytes@),
            Payload::Held(slot) => PayloadModel::Held(*slot),
        }
    }
}

impl View for NativeCall {
    type V = CallModel;

    open spec fn view(&self) -> CallModel {
        match self {
            NativeCall::SetOption { index, payload, len } => CallModel::SetOption {
                index: *index,
                payload: payload@,
                len: *len as int,
            },
            NativeCall::Initialize => CallModel::Initialize,
            NativeCall::Disconnect => CallModel::Disconnect,
            NativeCall::TurnOn => CallModel::TurnOn,
            NativeCall::TurnOff => CallModel::TurnOff,
            NativeCall::ProcessSimple => CallModel::ProcessSimple,
            NativeCall::DescribeError => CallModel::DescribeError,
            NativeCall::Destroy => CallModel::Destroy,
        }
    }
}

impl View for Step {
    type V = Outcome;

    open spec fn view(&self) -> Outcome {
        match self {
            Step::Call(call) => Outcome::Call(call@),
            Step::Done(Ok(Completion::Unit)) => Outcome::Completed,
            Step::Done(Ok(Completion::Scan(scan))) => Outcome::Scanned(scan@),
            Step::Done(Err(error)) => Outcome::Failed(error.description@),
            Step::Unexpected => Outcome::Unexpected,
        }
    }
}

/// The buffer behind a string option.
pub open spec fn slot_of(index: PropertyIndex) -> ConfigSlot {
    match index {
        PropertyIndex::SerialPort => ConfigSlot::SerialPort,
        _ => ConfigSlot::IgnoreArray,
    }
}

impl<'a> LidarProperty<'a> {
    /// The buffer that holds the value, for the options that take a string.
    pub open spec fn slot(self) -> Option<ConfigSlot> {
        match self {
            LidarProperty::SerialPort(_) => Some(ConfigSlot::SerialPort),
            LidarProperty::IgnoreArray(_) => Some(ConfigSlot::IgnoreArray),
            _ => None,
        }
    }

    /// Whether the option can be set: a string has no zero byte inside.
    /// Every integer, float and boolean can be set.
    pub open spec fn is_settable(self) -> bool {
        self.slot() is Some ==> is_c_text(self.value_bytes())
    }

    /// The call that sets the option: its place in the table, the bytes of
    /// its value or the buffer that holds them, and the number of bytes that
    /// the device reads, which leaves a string's terminator out.
    pub open spec fn setting_call(self) -> CallModel {
        CallModel::SetOption {
            index: self.spec_index(),
            payload: match self.slot() {
                Some(slot) => PayloadModel::Held(slot),
                None => PayloadModel::Inline(self.value_bytes()),
            },
            len: self.value_bytes().len() as int,
        }
    }

    /// Tells whether the option can be set.
    pub fn check(self) -> (ok: bool)
        ensures
            ok == self.is_settable(),
    {
        match self {
            LidarProperty::SerialPort(s) | LidarProperty::IgnoreArray(s) => {
                holds_no_nul(s.as_bytes())
            },
            _ => true,
        }
    }
}

impl Session {
    /// A session that has just been opened: both buffers hold the empty
    /// string, and nothing is awaited.
    pub open spec fn fresh() -> Session {
        Session {
            lidar_port: c_text(Seq::empty()),
            ignore_array: c_text(Seq::empty()),
            pending: Pending::Idle,
        }
    }

    /// Both buffers hold C strings.
    pub open spec fn wf(self) -> bool {
        &&& is_c_string(self.lidar_port)
        &&& is_c_string(self.ignore_array)
    }

    /// What a buffer holds.
    pub open spec fn buffer(self, slot: ConfigSlot) -> Seq<u8> {
        match slot {
            ConfigSlot::SerialPort => self.lidar_port,
            ConfigSlot::IgnoreArray => self.ignore_array,
        }
    }

    /// The session once it waits on something else.
    pub open spec fn awaiting(self, pending: Pending) -> Session {
        Session { pending, ..self }
    }

    /// The session once a buffer holds the given string, terminated.
    pub open spec fn holding(self, slot: ConfigSlot, text: Seq<u8>) -> Session {
        match slot {
            ConfigSlot::SerialPort => Session { lidar_port: c_text(text), ..self },
            ConfigSlot::IgnoreArray => Session { ignore_array: c_text(text), ..self },
        }
    }

    /// The session once the setting of an option has begun: a string has
    /// replaced what its buffer held, any other value leaves both buffers
    /// alone, and the call's flag is awaited.
    pub open spec fn setting(self, prop: LidarProperty) -> Session {
        match prop.slot() {
            Some(slot) => self.holding(slot, prop.value_bytes()).awaiting(Pending::Flag),
            None => self.awaiting(Pending::Flag),
        }
    }

    /// The bytes that the device reads when it follows a call's payload.
    pub open spec fn read_through(self, call: CallModel) -> Seq<u8>
        recommends
            call is SetOption,
    {
        match call {
            CallModel::SetOption { payload: PayloadModel::Inline(bytes), len, .. } => bytes.take(
                len,
            ),
            CallModel::SetOption { payload: PayloadModel::Held(slot), len, .. } => self.buffer(
                slot,
            ).take(len),
            _ => Seq::empty(),
        }
    }

    /// How the operation under way goes on after a reply.
    ///
    /// A call that reported failure is followed by the question for its
    /// description, and the description, once it is there, is the error. A
    /// call that reported success ends the operation; fetching a scan
    /// succeeds only with a descriptor, and only with one whose count can be
    /// trusted. Any other reply is unexpected.
    pub open spec fn step(self, reply: NativeReply) -> Outcome {
        match (self.pending, reply) {
            (Pending::Flag, NativeReply::Flag(true)) => Outcome::Completed,
            (Pending::Flag, NativeReply::Flag(false)) => Outcome::Call(CallModel::DescribeError),
            (Pending::Scan, NativeReply::Flag(false)) => Outcome::Call(CallModel::DescribeError),
            (Pending::Scan, NativeReply::Scan(fan)) => if fan.is_consistent() {
                Outcome::Scanned(fan.described())
            } else {
                Outcome::Unexpected
            },
            (Pending::Text, NativeReply::Text(description)) => Outcome::Failed(description@),
            (Pending::Return, NativeReply::Returned) => Outcome::Completed,
            _ => Outcome::Unexpected,
        }
    }

    /// The end of the session: the call that destroys the handle, and what
    /// the two buffers hold while it is made, the serial port's first.
    pub open spec fn released(self) -> (CallModel, Seq<u8>, Seq<u8>) {
        (CallModel::Destroy, self.lidar_port, self.ignore_array)
    }

    /// The session after a reply: it waits on the description where that was
    /// asked for, on nothing where the operation is over, and on what it
    /// waited on before where the reply was unexpected. The buffers stay.
    pub open spec fn resumed(self, reply: NativeReply) -> Session {
        match self.step(reply) {
            Outcome::Call(_) => self.awaiting(Pending::Text),
            Outcome::Unexpected => self,
            _ => self.awaiting(Pending::Idle),
        }
    }
}

/// The session with one scanner: its two string buffers, and what it is
/// waiting on.
pub struct Ydlidar {
    lidar_port: Vec<u8>,
    ignore_array: Vec<u8>,
    pending: Pending,
}

impl View for Ydlidar {
    type V = Session;

    closed spec fn view(&self) -> Session {
        Session {
            lidar_port: self.lidar_port@,
            ignore_array: self.ignore_array@,
            pending: self.pending,
        }
    }
}

impl Ydlidar {
    #[verifier::type_invariant]
    closed spec fn inv(self) -> bool {
        self@.wf()
    }

    /// Opens a session. Both buffers hold the empty string.
    pub fn new() -> (device: Self)
        ensures
            device@ == Session::fresh(),
            device@.wf(),
    {
        let mut lidar_port: Vec<u8> = Vec::new();
        lidar_port.push(0u8);
        let mut ignore_array: Vec<u8> = Vec::new();
        ignore_array.push(0u8);
        assert(lidar_port@ =~= c_text(Seq::empty()));
        assert(ignore_array@ =~= c_text(Seq::empty()));
        assert(lidar_port@.drop_last() =~= Seq::<u8>::empty());
        assert(ignore_array@.drop_last() =~= Seq::<u8>::empty());
        Self { lidar_port, ignore_array, pending: Pending::Idle }
    }

    /// Begins to set an option and answers with the call that sets it.
    ///
    /// A string replaces what its buffer held before the call is handed out,
    /// so the call shares the buffer's storage and nothing shorter-lived.
    pub fn set_property(&mut self, prop: LidarProperty) -> (call: NativeCall)
        requires
            prop.is_settable(),
        ensures
            call@ == prop.setting_call(),
            final(self)@ == old(self)@.setting(prop),
            final(self)@.wf(),
            final(self)@.read_through(call@) == prop.value_bytes(),
    {
        let call = match prop {
            LidarProperty::SerialPort(s) => self.set_string_property(PropertyIndex::SerialPort, s),
            LidarProperty::IgnoreArray(s) => self.set_string_property(
                PropertyIndex::IgnoreArray,
                s,
            ),
            LidarProperty::SerialBaudRate(v) => self.set_int_property(
                PropertyIndex::SerialBaudRate,
                v,
            ),
            LidarProperty::LidarType(v) => self.set_int_property(PropertyIndex::LidarType, v),
            LidarProperty::DeviceType(v) => self.set_int_property(PropertyIndex::DeviceType, v),
            LidarProperty::SampleRate(v) => self.set_int_property(PropertyIndex::SampleRate, v),
            LidarProperty::AbnormalCheckCount(v) => self.set_int_property(
                PropertyIndex::AbnormalCheckCount,
                v,
            ),
            LidarProperty::IntensityBit(v) => self.set_int_property(
                PropertyIndex::IntensityBit,
                v,
            ),
            LidarProperty::MaxRange(w) => self.set_float_property(PropertyIndex::MaxRange, w),
            LidarProperty::MinRange(w) => self.set_float_property(PropertyIndex::MinRange, w),
            LidarProperty::MaxAngle(w) => self.set_float_property(PropertyIndex::MaxAngle, w),
            LidarProperty::MinAngle(w) => self.set_float_property(PropertyIndex::MinAngle, w),
            LidarProperty::ScanFrequency(w) => self.set_float_property(
                PropertyIndex::ScanFrequency,
                w,
            ),
            LidarProperty::FixedResolution(b) => self.set_bool_property(
                PropertyIndex::FixedResolution,
                b,
            ),
            LidarProperty::Reversion(b) => self.set_bool_property(PropertyIndex::Reversion, b),
            LidarProperty::Inverted(b) => self.set_bool_property(PropertyIndex::Inverted, b),
            LidarProperty::AutoReconnect(b) => self.set_bool_property(
                PropertyIndex::AutoReconnect,
                b,
            ),
            LidarProperty::SingleChannel(b) => self.set_bool_property(
                PropertyIndex::SingleChannel,
                b,
            ),
            LidarProperty::Intensity(b) => self.set_bool_property(PropertyIndex::Intensity, b),
            LidarProperty::SupportMotorDtrCtrl(b) => self.set_bool_property(
                PropertyIndex::SupportMotorDtrCtrl,
                b,
            ),
            LidarProperty::SupportHeartBeat(b) => self.set_bool_property(
                PropertyIndex::SupportHeartBeat,
                b,
            ),
        };
        proof {
            use_type_invariant(&*self);
            let bytes = prop.value_bytes();
            assert(bytes.take(bytes.len() as int) =~= bytes);
            assert(c_text(bytes).take(bytes.len() as int) =~= bytes);
        }
        call
    }

    /// Begins to set a boolean option: one byte, in the call itself.
    pub fn set_bool_property(&mut self, index: PropertyIndex, value: bool) -> (call: NativeCall)
        ensures
            call@ == (CallModel::SetOption {
                index,
                payload: PayloadModel::Inline(bool_bytes(value)),
                len: 1,
            }),
            final(self)@ == old(self)@.awaiting(Pending::Flag),
    {
        proof {
            use_type_invariant(&*self);
        }
        self.pending = Pending::Flag;
        NativeCall::SetOption { index, payload: Payload::Inline(encode_bool(value)), len: BOOL_WIDTH }
    }

    /// Begins to set a float option: the four bytes of its bit pattern, in
    /// the call itself.
    pub fn set_float_property(&mut self, index: PropertyIndex, value: u32) -> (call: NativeCall)
        ensures
            call@ == (CallModel::SetOption {
                index,
                payload: PayloadModel::Inline(word_bytes(value)),
                len: 4,
            }),
            final(self)@ == old(self)@.awaiting(Pending::Flag),
    {
        proof {
            use_type_invariant(&*self);
        }
        self.pending = Pending::Flag;
        NativeCall::SetOption { index, payload: Payload::Inline(encode_word(value)), len: WORD_WIDTH }
    }

    /// Begins to set an integer option: four bytes, in the call itself.
    pub fn set_int_property(&mut self, index: PropertyIndex, value: i32) -> (call: NativeCall)
        ensures
            call@ == (CallModel::SetOption {
                index,
                payload: PayloadModel::Inline(int_bytes(value)),
                len: 4,
            }),
            final(self)@ == old(self)@.awaiting(Pending::Flag),
    {
        proof {
            use_type_invariant(&*self);
        }
        self.pending = Pending::Flag;
        NativeCall::SetOption { index, payload: Payload::Inline(encode_int(value)), len: WORD_WIDTH }
    }

    /// Begins to set a string option: the string, terminated, replaces what
    /// the option's buffer held, and the call names that buffer and the
    /// string's length without the terminator.
    pub fn set_string_property(&mut self, index: PropertyIndex, value: &str) -> (call: NativeCall)
        requires
            index.spec_kind() == ValueKind::Text,
            is_c_text(value.spec_bytes()),
        ensures
            call@ == (CallModel::SetOption {
                index,
                payload: PayloadModel::Held(slot_of(index)),
                len: value.spec_bytes().len() as int,
            }),
            final(self)@ == old(self)@.holding(slot_of(index), value.spec_bytes()).awaiting(
                Pending::Flag,
            ),
    {
        proof {
            use_type_invariant(&*self);
        }
        let bytes = value.as_bytes();
        let len: usize = bytes.len();
        let slot = match index {
            PropertyIndex::SerialPort => {
                self.lidar_port = terminate(bytes);
                ConfigSlot::SerialPort
            },
            _ => {
                self.ignore_array = terminate(bytes);
                ConfigSlot::IgnoreArray
            },
        };
        self.pending = Pending::Flag;
        NativeCall::SetOption { index, payload: Payload::Held(slot), len }
    }

    /// Begins the hand-shake with the device, which checks the options set
    /// so far.
    pub fn initialize(&mut self) -> (call: NativeCall)
        ensures
            call@ == CallModel::Initialize,
            final(self)@ == old(self)@.awaiting(Pending::Flag),
    {
        proof {
            use_type_invariant(&*self);
        }
        self.pending = Pending::Flag;
        NativeCall::Initialize
    }

    /// Begins to close the connection. The call reports nothing.
    pub fn disconnect(&mut self) -> (call: NativeCall)
        ensures
            call@ == CallModel::Disconnect,
            final(self)@ == old(self)@.awaiting(Pending::Return),
    {
        proof {
            use_type_invariant(&*self);
        }
        self.pending = Pending::Return;
        NativeCall::Disconnect
    }

    /// Begins to start the motor and the stream of scans.
    pub fn turn_on(&mut self) -> (call: NativeCall)
        ensures
            call@ == CallModel::TurnOn,
            final(self)@ == old(self)@.awaiting(Pending::Flag),
    {
        proof {
            use_type_invariant(&*self);
        }
        self.pending = Pending::Flag;
        NativeCall::TurnOn
    }

    /// Begins to stop the motor and the stream of scans.
    pub fn turn_off(&mut self) -> (call: NativeCall)
        ensures
            call@ == CallModel::TurnOff,
            final(self)@ == old(self)@.awaiting(Pending::Flag),
    {
        proof {
            use_type_invariant(&*self);
        }
        self.pending = Pending::Flag;
        NativeCall::TurnOff
    }

    /// Begins to fetch the next processed scan.
    pub fn do_process_simple(&mut self) -> (call: NativeCall)
        ensures
            call@ == CallModel::ProcessSimple,
            final(self)@ == old(self)@.awaiting(Pending::Scan),
    {
        proof {
            use_type_invariant(&*self);
        }
        self.pending = Pending::Scan;
        NativeCall::ProcessSimple
    }

    /// Takes the reply to the call that was handed out last and answers with
    /// how the operation goes on.
    pub fn resume(&mut self, reply: NativeReply) -> (step: Step)
        ensures
            step@ == old(self)@.step(reply),
            final(self)@ == old(self)@.resumed(reply),
    {
        proof {
            use_type_invariant(&*self);
        }
        match (self.pending, reply) {
            (Pending::Flag, NativeReply::Flag(true)) | (Pending::Return, NativeReply::Returned) => {
                self.pending = Pending::Idle;
                Step::Done(Ok(Completion::Unit))
            },
            (Pending::Flag, NativeReply::Flag(false)) | (Pending::Scan, NativeReply::Flag(false)) => {
                self.pending = Pending::Text;
                Step::Call(NativeCall::DescribeError)
            },
            (Pending::Scan, NativeReply::Scan(fan)) => {
                if fan.check() {
                    self.pending = Pending::Idle;
                    Step::Done(Ok(Completion::Scan(LaserScan::from_fan(&fan))))
                } else {
                    Step::Unexpected
                }
            },
            (Pending::Text, NativeReply::Text(description)) => {
                self.pending = Pending::Idle;
                Step::Done(Err(LidarError { description }))
            },
            _ => Step::Unexpected,
        }
    }

    /// Ends the session and answers with the call that destroys the handle,
    /// together with the two buffers, the serial port's first.
    ///
    /// The device library may follow the pointers it kept until the handle
    /// is gone. So the buffers are handed out as they are, for the caller to
    /// hold until the call has returned and to drop after it. The session is
    /// given up: nothing can be asked of the handle afterwards, and the
    /// handle cannot be destroyed twice.
    pub fn release(self) -> (ended: (NativeCall, Vec<u8>, Vec<u8>))
        ensures
            ended.0@ == CallModel::Destroy,
            ended.1@ == self@.lidar_port,
            ended.2@ == self@.ignore_array,
            (ended.0@, ended.1@, ended.2@) == self@.released(),
            is_c_string(ended.1@),
            is_c_string(ended.2@),
    {
        proof {
            use_type_invariant(&self);
        }
        (NativeCall::Destroy, self.lidar_port, self.ignore_array)
    }

    /// One of the two buffers, as the device reads it: a C string.
    pub fn buffer(&self, slot: ConfigSlot) -> (buffer: &Vec<u8>)
        ensures
            buffer@ == self@.buffer(slot),
            is_c_string(buffer@),
    {
        proof {
            use_type_invariant(self);
        }
        match slot {
            ConfigSlot::SerialPort => &self.lidar_port,
            ConfigSlot::IgnoreArray => &self.ignore_array,
        }
    }

    /// What the session is waiting on.
    pub fn pending(&self) -> (pending: Pending)
        ensures
            pending == self@.pending,
    {
        self.pending
    }
}

} // verus!
