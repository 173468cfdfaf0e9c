use ydlidar::marshal::{decode_bool, decode_int, decode_word};
use ydlidar::{
    Completion, ConfigSlot, LaserFan, LidarError, LidarProperty, NativeCall, NativeReply, Payload,
    Pending, PropertyIndex, RawPoint, Step, Ydlidar,
};

/// A stand-in for the device library. It records what it is told, keeps for
/// a string option only the buffer it was pointed to, and answers as a
/// scanner with three points in its rotation would.
/// The storage that the device's kept pointers lead to: the serial port's
/// buffer and the ignore array's.
type Buffers<'a> = (&'a Vec<u8>, &'a Vec<u8>);

fn buffers_of(core: &Ydlidar) -> Buffers<'_> {
    (core.buffer(ConfigSlot::SerialPort), core.buffer(ConfigSlot::IgnoreArray))
}

struct FakeDevice {
    port: Option<(ConfigSlot, usize)>,
    ignore: Option<(ConfigSlot, usize)>,
    ints: Vec<(PropertyIndex, i32)>,
    floats: Vec<(PropertyIndex, f32)>,
    bools: Vec<(PropertyIndex, bool)>,
    port_at_init: Vec<u8>,
    port_at_destroy: Vec<u8>,
    ignore_at_destroy: Vec<u8>,
    initialized: bool,
    scanning: bool,
    connected: bool,
    destroyed: u32,
    described: u32,
    last_error: String,
    refuse: Option<PropertyIndex>,
}

impl FakeDevice {
    fn new() -> Self {
        FakeDevice {
            port: None,
            ignore: None,
            ints: Vec::new(),
            floats: Vec::new(),
            bools: Vec::new(),
            port_at_init: Vec::new(),
            port_at_destroy: Vec::new(),
            ignore_at_destroy: Vec::new(),
            initialized: false,
            scanning: false,
            connected: false,
            destroyed: 0,
            described: 0,
            last_error: String::new(),
            refuse: None,
        }
    }

    /// Reads what a kept pointer leads to: `len` bytes and a terminator.
    fn held(buffers: &Buffers, slot: ConfigSlot, len: usize) -> Vec<u8> {
        let buffer = match slot {
            ConfigSlot::SerialPort => buffers.0,
            ConfigSlot::IgnoreArray => buffers.1,
        };
        assert_eq!(buffer[len], 0);
        buffer[..len].to_vec()
    }

    fn set_option(&mut self, index: PropertyIndex, payload: &Payload, len: usize) -> bool {
        if self.refuse == Some(index) {
            self.last_error = String::from("option refused");
            return false;
        }
        match payload {
            Payload::Held(slot) => match index {
                PropertyIndex::SerialPort => self.port = Some((*slot, len)),
                PropertyIndex::IgnoreArray => self.ignore = Some((*slot, len)),
                _ => panic!("a buffer for an option that takes no string"),
            },
            Payload::Inline(bytes) => {
                assert_eq!(bytes.len(), len);
                match len {
                    1 => self.bools.push((index, decode_bool(bytes))),
                    4 => match index.kind() {
                        ydlidar::ValueKind::Int => self.ints.push((index, decode_int(bytes))),
                        _ => self.floats.push((index, f32::from_bits(decode_word(bytes)))),
                    },
                    _ => panic!("a width that no option has"),
                }
            }
        }
        true
    }

    fn perform(&mut self, buffers: Buffers, call: &NativeCall) -> NativeReply {
        match call {
            NativeCall::SetOption { index, payload, len } => {
                NativeReply::Flag(self.set_option(*index, payload, *len))
            }
            NativeCall::Initialize => {
                match self.port {
                    Some((slot, len)) => {
                        self.port_at_init = FakeDevice::held(&buffers, slot, len);
                        self.initialized = true;
                        self.connected = true;
                    }
                    None => self.last_error = String::from("no serial port"),
                }
                NativeReply::Flag(self.initialized)
            }
            NativeCall::TurnOn => {
                if self.initialized {
                    self.scanning = true;
                } else {
                    self.last_error = String::from("not initialized");
                }
                NativeReply::Flag(self.scanning)
            }
            NativeCall::TurnOff => {
                if !self.scanning {
                    self.last_error = String::from("not scanning");
                    return NativeReply::Flag(false);
                }
                self.scanning = false;
                NativeReply::Flag(true)
            }
            NativeCall::Disconnect => {
                self.connected = false;
                NativeReply::Returned
            }
            NativeCall::ProcessSimple => {
                if !self.scanning {
                    self.last_error = String::from("scan failed: device is off");
                    return NativeReply::Flag(false);
                }
                NativeReply::Scan(three_point_fan())
            }
            NativeCall::DescribeError => {
                self.described += 1;
                NativeReply::Text(self.last_error.clone())
            }
            NativeCall::Destroy => {
                if let Some((slot, len)) = self.port {
                    self.port_at_destroy = FakeDevice::held(&buffers, slot, len);
                }
                if let Some((slot, len)) = self.ignore {
                    self.ignore_at_destroy = FakeDevice::held(&buffers, slot, len);
                }
                self.destroyed += 1;
                NativeReply::Returned
            }
        }
    }
}

fn raw(angle: f32, range: f32, intensity: f32) -> RawPoint {
    RawPoint { angle: angle.to_bits(), range: range.to_bits(), intensity: intensity.to_bits() }
}

fn three_point_fan() -> LaserFan {
    LaserFan {
        stamp: 1_700_000_000_123_456_789,
        npoints: 3,
        points: vec![raw(-120.0, 1.5, 10.0), raw(0.0, 2.25, 20.0), raw(120.0, 0.75, 30.0)],
    }
}

/// Makes the call, hands the reply back, and goes on until the operation is
/// over.
fn drive(
    core: &mut Ydlidar,
    device: &mut FakeDevice,
    first: NativeCall,
) -> Result<Completion, LidarError> {
    let mut call = first;
    loop {
        let reply = device.perform(buffers_of(core), &call);
        match core.resume(reply) {
            Step::Call(next) => call = next,
            Step::Done(result) => return result,
            Step::Unexpected => panic!("the device answered out of turn"),
        }
    }
}

fn set(core: &mut Ydlidar, device: &mut FakeDevice, prop: LidarProperty) -> Result<(), LidarError> {
    assert!(prop.check());
    let call = core.set_property(prop);
    drive(core, device, call).map(|_| ())
}

fn inline(call: &NativeCall) -> (PropertyIndex, Vec<u8>, usize) {
    match call {
        NativeCall::SetOption { index, payload: Payload::Inline(bytes), len } => {
            (*index, bytes.clone(), *len)
        }
        other => panic!("not an inline option: {:?}", other),
    }
}

#[test]
fn start_lidar() {
    let mut l = Ydlidar::new();
    let mut d = FakeDevice::new();

    set(&mut l, &mut d, LidarProperty::SerialPort("/dev/ydlidar")).unwrap();
    set(&mut l, &mut d, LidarProperty::IgnoreArray("")).unwrap();
    set(&mut l, &mut d, LidarProperty::SerialBaudRate(115200)).unwrap();
    set(&mut l, &mut d, LidarProperty::LidarType(1)).unwrap();
    set(&mut l, &mut d, LidarProperty::DeviceType(0)).unwrap();
    set(&mut l, &mut d, LidarProperty::SampleRate(3)).unwrap();
    set(&mut l, &mut d, LidarProperty::AbnormalCheckCount(4)).unwrap();
    set(&mut l, &mut d, LidarProperty::FixedResolution(true)).unwrap();
    set(&mut l, &mut d, LidarProperty::Reversion(false)).unwrap();
    set(&mut l, &mut d, LidarProperty::Inverted(true)).unwrap();
    set(&mut l, &mut d, LidarProperty::AutoReconnect(true)).unwrap();
    set(&mut l, &mut d, LidarProperty::SingleChannel(true)).unwrap();
    set(&mut l, &mut d, LidarProperty::Intensity(false)).unwrap();
    set(&mut l, &mut d, LidarProperty::SupportMotorDtrCtrl(true)).unwrap();
    set(&mut l, &mut d, LidarProperty::MaxAngle(180.0f32.to_bits())).unwrap();
    set(&mut l, &mut d, LidarProperty::MinAngle((-180.0f32).to_bits())).unwrap();
    set(&mut l, &mut d, LidarProperty::MaxRange(12.0f32.to_bits())).unwrap();
    set(&mut l, &mut d, LidarProperty::MinRange(0.1f32.to_bits())).unwrap();
    set(&mut l, &mut d, LidarProperty::ScanFrequency(20.0f32.to_bits())).unwrap();

    let call = l.initialize();
    drive(&mut l, &mut d, call).unwrap();

    let call = l.turn_on();
    drive(&mut l, &mut d, call).unwrap();

    let call = l.do_process_simple();
    let laser_scan = match drive(&mut l, &mut d, call).unwrap() {
        Completion::Scan(scan) => scan,
        Completion::Unit => panic!("no scan"),
    };
    assert_ne!(0, laser_scan.stamp());
    assert_ne!(0, laser_scan.points().len());

    let call = l.turn_off();
    drive(&mut l, &mut d, call).unwrap();

    let call = l.disconnect();
    drive(&mut l, &mut d, call).unwrap();

    assert_eq!(d.port_at_init, b"/dev/ydlidar".to_vec());
    assert_eq!(
        d.ints,
        vec![
            (PropertyIndex::SerialBaudRate, 115200),
            (PropertyIndex::LidarType, 1),
            (PropertyIndex::DeviceType, 0),
            (PropertyIndex::SampleRate, 3),
            (PropertyIndex::AbnormalCheckCount, 4),
        ]
    );
    assert_eq!(
        d.floats,
        vec![
            (PropertyIndex::MaxAngle, 180.0),
            (PropertyIndex::MinAngle, -180.0),
            (PropertyIndex::MaxRange, 12.0),
            (PropertyIndex::MinRange, 0.1),
            (PropertyIndex::ScanFrequency, 20.0),
        ]
    );
    assert_eq!(d.bools.len(), 7);
    assert!(!d.connected);
    assert_eq!(d.described, 0);
}

#[test]
fn scenario_configure_scan_and_stop() {
    let mut l = Ydlidar::new();
    let mut d = FakeDevice::new();
    set(&mut l, &mut d, LidarProperty::SerialPort("/dev/ttyUSB0")).unwrap();
    set(&mut l, &mut d, LidarProperty::SerialBaudRate(115200)).unwrap();
    set(&mut l, &mut d, LidarProperty::LidarType(1)).unwrap();
    set(&mut l, &mut d, LidarProperty::MaxAngle(180.0f32.to_bits())).unwrap();
    set(&mut l, &mut d, LidarProperty::MinAngle((-180.0f32).to_bits())).unwrap();

    let call = l.initialize();
    assert_eq!(call, NativeCall::Initialize);
    assert_eq!(drive(&mut l, &mut d, call), Ok(Completion::Unit));
    let call = l.turn_on();
    assert_eq!(call, NativeCall::TurnOn);
    assert_eq!(drive(&mut l, &mut d, call), Ok(Completion::Unit));

    let call = l.do_process_simple();
    assert_eq!(call, NativeCall::ProcessSimple);
    let scan = match drive(&mut l, &mut d, call) {
        Ok(Completion::Scan(scan)) => scan,
        other => panic!("no scan: {:?}", other),
    };
    assert_ne!(scan.stamp(), 0);
    assert!(scan.points().len() > 0);
    assert_eq!(scan.stamp(), 1_700_000_000_123_456_789);
    assert_eq!(scan.points().len(), 3);

    let call = l.turn_off();
    assert_eq!(call, NativeCall::TurnOff);
    assert_eq!(drive(&mut l, &mut d, call), Ok(Completion::Unit));
    let call = l.disconnect();
    assert_eq!(call, NativeCall::Disconnect);
    assert_eq!(drive(&mut l, &mut d, call), Ok(Completion::Unit));
    assert_eq!(l.pending(), Pending::Idle);
}

#[test]
fn integer_option_is_four_bytes_low_byte_first() {
    let mut l = Ydlidar::new();
    let call = l.set_property(LidarProperty::SerialBaudRate(115200));
    assert_eq!(inline(&call), (PropertyIndex::SerialBaudRate, vec![0x00, 0xc2, 0x01, 0x00], 4));
    let call = l.set_property(LidarProperty::SampleRate(-2));
    assert_eq!(inline(&call), (PropertyIndex::SampleRate, vec![0xfe, 0xff, 0xff, 0xff], 4));
    let call = l.set_property(LidarProperty::IntensityBit(i32::MIN));
    assert_eq!(inline(&call), (PropertyIndex::IntensityBit, vec![0x00, 0x00, 0x00, 0x80], 4));
    let call = l.set_property(LidarProperty::LidarType(i32::MAX));
    assert_eq!(inline(&call), (PropertyIndex::LidarType, vec![0xff, 0xff, 0xff, 0x7f], 4));
    let call = l.set_property(LidarProperty::DeviceType(0));
    assert_eq!(inline(&call), (PropertyIndex::DeviceType, vec![0, 0, 0, 0], 4));
    let call = l.set_property(LidarProperty::AbnormalCheckCount(4));
    assert_eq!(inline(&call), (PropertyIndex::AbnormalCheckCount, vec![4, 0, 0, 0], 4));
}

#[test]
fn integer_option_matches_the_machine_on_little_endian() {
    for v in [0, 1, -1, 115200, 230400, i32::MIN, i32::MAX, -12345678] {
        let mut l = Ydlidar::new();
        let (_, bytes, len) = inline(&l.set_property(LidarProperty::SerialBaudRate(v)));
        assert_eq!(bytes, v.to_le_bytes().to_vec());
        assert_eq!(len, std::mem::size_of::<i32>());
        assert_eq!(decode_int(&bytes), v);
    }
}

#[test]
fn float_option_is_its_ieee_bits() {
    let mut l = Ydlidar::new();
    let call = l.set_property(LidarProperty::MaxAngle(180.0f32.to_bits()));
    assert_eq!(inline(&call), (PropertyIndex::MaxAngle, vec![0x00, 0x00, 0x34, 0x43], 4));
    let call = l.set_property(LidarProperty::MinAngle((-180.0f32).to_bits()));
    assert_eq!(inline(&call), (PropertyIndex::MinAngle, vec![0x00, 0x00, 0x34, 0xc3], 4));
    let call = l.set_property(LidarProperty::MaxRange(12.0f32.to_bits()));
    assert_eq!(inline(&call), (PropertyIndex::MaxRange, vec![0x00, 0x00, 0x40, 0x41], 4));
    let call = l.set_property(LidarProperty::MinRange(0.1f32.to_bits()));
    assert_eq!(inline(&call), (PropertyIndex::MinRange, vec![0xcd, 0xcc, 0xcc, 0x3d], 4));
    let call = l.set_property(LidarProperty::ScanFrequency(20.0f32.to_bits()));
    let (index, bytes, len) = inline(&call);
    assert_eq!(index, PropertyIndex::ScanFrequency);
    assert_eq!(bytes, 20.0f32.to_le_bytes().to_vec());
    assert_eq!(len, std::mem::size_of::<f32>());
    assert_eq!(f32::from_bits(decode_word(&bytes)), 20.0);
}

#[test]
fn boolean_option_is_one_byte() {
    let mut l = Ydlidar::new();
    let call = l.set_property(LidarProperty::FixedResolution(true));
    assert_eq!(inline(&call), (PropertyIndex::FixedResolution, vec![1], 1));
    let call = l.set_property(LidarProperty::Reversion(false));
    assert_eq!(inline(&call), (PropertyIndex::Reversion, vec![0], 1));
    let call = l.set_property(LidarProperty::Inverted(true));
    assert_eq!(inline(&call), (PropertyIndex::Inverted, vec![1], 1));
    let call = l.set_property(LidarProperty::AutoReconnect(false));
    assert_eq!(inline(&call), (PropertyIndex::AutoReconnect, vec![0], 1));
    let call = l.set_property(LidarProperty::SingleChannel(true));
    assert_eq!(inline(&call), (PropertyIndex::SingleChannel, vec![1], 1));
    let call = l.set_property(LidarProperty::Intensity(false));
    assert_eq!(inline(&call), (PropertyIndex::Intensity, vec![0], 1));
    let call = l.set_property(LidarProperty::SupportMotorDtrCtrl(true));
    assert_eq!(inline(&call), (PropertyIndex::SupportMotorDtrCtrl, vec![1], 1));
    let call = l.set_property(LidarProperty::SupportHeartBeat(true));
    assert_eq!(inline(&call), (PropertyIndex::SupportHeartBeat, vec![1], 1));
    assert_eq!(std::mem::size_of::<bool>(), 1);
    assert!(decode_bool(&[1]));
    assert!(!decode_bool(&[0]));
    assert!(decode_bool(&[7]));
}

#[test]
fn string_option_is_held_in_the_session() {
    let mut l = Ydlidar::new();
    assert_eq!(l.buffer(ConfigSlot::SerialPort), &vec![0u8]);
    assert_eq!(l.buffer(ConfigSlot::IgnoreArray), &vec![0u8]);
    let call = l.set_property(LidarProperty::SerialPort("/dev/ydlidar"));
    assert_eq!(
        call,
        NativeCall::SetOption {
            index: PropertyIndex::SerialPort,
            payload: Payload::Held(ConfigSlot::SerialPort),
            len: 12,
        }
    );
    assert_eq!(l.buffer(ConfigSlot::SerialPort), &b"/dev/ydlidar\0".to_vec());
    assert_eq!(l.buffer(ConfigSlot::IgnoreArray), &vec![0u8]);
    let call = l.set_property(LidarProperty::IgnoreArray("-90,-80,30,40"));
    assert_eq!(
        call,
        NativeCall::SetOption {
            index: PropertyIndex::IgnoreArray,
            payload: Payload::Held(ConfigSlot::IgnoreArray),
            len: 13,
        }
    );
    assert_eq!(l.buffer(ConfigSlot::IgnoreArray), &b"-90,-80,30,40\0".to_vec());
    assert_eq!(l.buffer(ConfigSlot::SerialPort), &b"/dev/ydlidar\0".to_vec());
}

#[test]
fn empty_string_is_a_lone_terminator() {
    let mut l = Ydlidar::new();
    l.set_property(LidarProperty::IgnoreArray("10,20"));
    let call = l.set_property(LidarProperty::IgnoreArray(""));
    assert_eq!(
        call,
        NativeCall::SetOption {
            index: PropertyIndex::IgnoreArray,
            payload: Payload::Held(ConfigSlot::IgnoreArray),
            len: 0,
        }
    );
    assert_eq!(l.buffer(ConfigSlot::IgnoreArray), &vec![0u8]);
}

#[test]
fn string_length_counts_bytes() {
    let mut l = Ydlidar::new();
    let call = l.set_property(LidarProperty::SerialPort("/dev/tty\u{e9}"));
    match call {
        NativeCall::SetOption { len, .. } => assert_eq!(len, 10),
        other => panic!("not an option: {:?}", other),
    }
    assert_eq!(l.buffer(ConfigSlot::SerialPort), &b"/dev/tty\xc3\xa9\0".to_vec());
}

#[test]
fn second_serial_port_is_the_one_read() {
    let mut l = Ydlidar::new();
    let mut d = FakeDevice::new();
    set(&mut l, &mut d, LidarProperty::SerialPort("/dev/ttyUSB0")).unwrap();
    set(&mut l, &mut d, LidarProperty::SerialPort("/dev/ydlidar-second")).unwrap();
    set(&mut l, &mut d, LidarProperty::SerialBaudRate(230400)).unwrap();
    set(&mut l, &mut d, LidarProperty::IgnoreArray("1,2")).unwrap();
    let call = l.initialize();
    drive(&mut l, &mut d, call).unwrap();
    assert_eq!(d.port_at_init, b"/dev/ydlidar-second".to_vec());
    let call = l.turn_on();
    drive(&mut l, &mut d, call).unwrap();
    let call = l.do_process_simple();
    drive(&mut l, &mut d, call).unwrap();
    assert_eq!(l.buffer(ConfigSlot::SerialPort), &b"/dev/ydlidar-second\0".to_vec());
    let ignore = d.ignore.unwrap();
    assert_eq!(FakeDevice::held(&buffers_of(&l), ignore.0, ignore.1), b"1,2".to_vec());
}

#[test]
fn shorter_second_string_leaves_nothing_of_the_first() {
    let mut l = Ydlidar::new();
    l.set_property(LidarProperty::SerialPort("/dev/serial/by-id/usb-long-name"));
    l.set_property(LidarProperty::SerialPort("COM3"));
    assert_eq!(l.buffer(ConfigSlot::SerialPort), &b"COM3\0".to_vec());
}

#[test]
fn string_with_a_zero_byte_cannot_be_set() {
    assert!(!LidarProperty::SerialPort("/dev/\0ydlidar").check());
    assert!(!LidarProperty::IgnoreArray("\0").check());
    assert!(LidarProperty::SerialPort("/dev/ydlidar").check());
    assert!(LidarProperty::IgnoreArray("").check());
    assert!(LidarProperty::SerialBaudRate(0).check());
    assert!(LidarProperty::MaxRange(0).check());
    assert!(LidarProperty::Intensity(false).check());
}

#[test]
fn scan_has_the_counted_points_in_order() {
    let mut l = Ydlidar::new();
    l.do_process_simple();
    let fan = LaserFan {
        stamp: 42,
        npoints: 2,
        points: vec![raw(1.0, 2.0, 3.0), raw(4.0, 5.0, 6.0), raw(7.0, 8.0, 9.0)],
    };
    let scan = match l.resume(NativeReply::Scan(fan)) {
        Step::Done(Ok(Completion::Scan(scan))) => scan,
        other => panic!("no scan: {:?}", other),
    };
    assert_eq!(scan.stamp(), 42);
    assert_eq!(scan.points().len(), 2);
    assert_eq!(f32::from_bits(scan.points()[0].angle()), 1.0);
    assert_eq!(f32::from_bits(scan.points()[0].range()), 2.0);
    assert_eq!(f32::from_bits(scan.points()[0].intensity()), 3.0);
    assert_eq!(f32::from_bits(scan.points()[1].angle()), 4.0);
    assert_eq!(f32::from_bits(scan.points()[1].range()), 5.0);
    assert_eq!(f32::from_bits(scan.points()[1].intensity()), 6.0);
    assert_eq!(l.pending(), Pending::Idle);
}

#[test]
fn scan_of_no_points_is_still_a_scan() {
    let mut l = Ydlidar::new();
    l.do_process_simple();
    let fan = LaserFan { stamp: 7, npoints: 0, points: Vec::new() };
    match l.resume(NativeReply::Scan(fan)) {
        Step::Done(Ok(Completion::Scan(scan))) => {
            assert_eq!(scan.stamp(), 7);
            assert!(scan.points().is_empty());
        }
        other => panic!("no scan: {:?}", other),
    }
}

#[test]
fn descriptor_with_an_impossible_count_is_refused() {
    let mut l = Ydlidar::new();
    l.do_process_simple();
    let negative = LaserFan { stamp: 1, npoints: -1, points: vec![raw(1.0, 1.0, 1.0)] };
    assert!(!negative.check());
    assert_eq!(l.resume(NativeReply::Scan(negative)), Step::Unexpected);
    assert_eq!(l.pending(), Pending::Scan);
    let short = LaserFan { stamp: 1, npoints: 2, points: vec![raw(1.0, 1.0, 1.0)] };
    assert!(!short.check());
    assert_eq!(l.resume(NativeReply::Scan(short)), Step::Unexpected);
    assert_eq!(l.pending(), Pending::Scan);
    assert!(three_point_fan().check());
}

#[test]
fn failed_scan_is_an_error_and_no_scan() {
    let mut l = Ydlidar::new();
    let mut d = FakeDevice::new();
    let call = l.do_process_simple();
    let result = drive(&mut l, &mut d, call);
    assert_eq!(result, Err(LidarError::new("scan failed: device is off")));
    assert_eq!(d.described, 1);
    assert_eq!(l.pending(), Pending::Idle);
}

#[test]
fn failure_asks_for_the_description_then_reports_it() {
    let mut l = Ydlidar::new();
    l.initialize();
    assert_eq!(l.resume(NativeReply::Flag(false)), Step::Call(NativeCall::DescribeError));
    assert_eq!(l.pending(), Pending::Text);
    let step = l.resume(NativeReply::Text(String::from("Error, cannot bind to the specified serial port")));
    match step {
        Step::Done(Err(error)) => {
            assert_eq!(error.description, "Error, cannot bind to the specified serial port")
        }
        other => panic!("no error: {:?}", other),
    }
    assert_eq!(l.pending(), Pending::Idle);
}

#[test]
fn refused_option_is_an_error() {
    let mut l = Ydlidar::new();
    let mut d = FakeDevice::new();
    d.refuse = Some(PropertyIndex::SampleRate);
    assert_eq!(set(&mut l, &mut d, LidarProperty::SerialBaudRate(9600)), Ok(()));
    assert_eq!(
        set(&mut l, &mut d, LidarProperty::SampleRate(9)),
        Err(LidarError::new("option refused"))
    );
    assert_eq!(d.described, 1);
}

#[test]
fn turn_on_before_initialize_fails_as_the_device_says() {
    let mut l = Ydlidar::new();
    let mut d = FakeDevice::new();
    let call = l.turn_on();
    assert_eq!(drive(&mut l, &mut d, call), Err(LidarError::new("not initialized")));
    let call = l.turn_off();
    assert_eq!(drive(&mut l, &mut d, call), Err(LidarError::new("not scanning")));
    let call = l.initialize();
    assert_eq!(drive(&mut l, &mut d, call), Err(LidarError::new("no serial port")));
}

#[test]
fn success_ends_the_operation_without_a_question() {
    let mut l = Ydlidar::new();
    assert_eq!(l.pending(), Pending::Idle);
    l.turn_on();
    assert_eq!(l.pending(), Pending::Flag);
    assert_eq!(l.resume(NativeReply::Flag(true)), Step::Done(Ok(Completion::Unit)));
    assert_eq!(l.pending(), Pending::Idle);
    l.disconnect();
    assert_eq!(l.pending(), Pending::Return);
    assert_eq!(l.resume(NativeReply::Returned), Step::Done(Ok(Completion::Unit)));
    assert_eq!(l.pending(), Pending::Idle);
}

#[test]
fn reply_out_of_turn_is_unexpected() {
    let mut l = Ydlidar::new();
    assert_eq!(l.resume(NativeReply::Flag(true)), Step::Unexpected);
    assert_eq!(l.resume(NativeReply::Returned), Step::Unexpected);
    assert_eq!(l.resume(NativeReply::Text(String::from("x"))), Step::Unexpected);
    assert_eq!(l.resume(NativeReply::Scan(three_point_fan())), Step::Unexpected);
    assert_eq!(l.pending(), Pending::Idle);
    l.initialize();
    assert_eq!(l.resume(NativeReply::Scan(three_point_fan())), Step::Unexpected);
    assert_eq!(l.resume(NativeReply::Returned), Step::Unexpected);
    assert_eq!(l.resume(NativeReply::Text(String::from("x"))), Step::Unexpected);
    assert_eq!(l.pending(), Pending::Flag);
    l.do_process_simple();
    assert_eq!(l.resume(NativeReply::Flag(true)), Step::Unexpected);
    assert_eq!(l.pending(), Pending::Scan);
    l.disconnect();
    assert_eq!(l.resume(NativeReply::Flag(true)), Step::Unexpected);
    assert_eq!(l.resume(NativeReply::Flag(false)), Step::Unexpected);
    assert_eq!(l.pending(), Pending::Return);
}

#[test]
fn handle_is_destroyed_once() {
    let mut l = Ydlidar::new();
    let mut d = FakeDevice::new();
    set(&mut l, &mut d, LidarProperty::SerialPort("/dev/ydlidar")).unwrap();
    let call = l.initialize();
    drive(&mut l, &mut d, call).unwrap();
    let call = l.do_process_simple();
    assert!(drive(&mut l, &mut d, call).is_err());
    assert_eq!(d.destroyed, 0);
    let (call, lidar_port, ignore_array) = l.release();
    assert_eq!(call, NativeCall::Destroy);
    assert_eq!(d.perform((&lidar_port, &ignore_array), &call), NativeReply::Returned);
    assert_eq!(d.destroyed, 1);
}

#[test]
fn destroy_still_reads_the_strings_that_were_set() {
    let mut l = Ydlidar::new();
    let mut d = FakeDevice::new();
    set(&mut l, &mut d, LidarProperty::SerialPort("/dev/ttyUSB0")).unwrap();
    set(&mut l, &mut d, LidarProperty::SerialPort("/dev/ydlidar")).unwrap();
    set(&mut l, &mut d, LidarProperty::IgnoreArray("-90,-80,30,40")).unwrap();
    set(&mut l, &mut d, LidarProperty::SerialBaudRate(115200)).unwrap();
    let call = l.initialize();
    drive(&mut l, &mut d, call).unwrap();
    let call = l.disconnect();
    drive(&mut l, &mut d, call).unwrap();

    let (call, lidar_port, ignore_array) = l.release();
    assert_eq!(call, NativeCall::Destroy);
    assert_eq!(lidar_port, b"/dev/ydlidar\0".to_vec());
    assert_eq!(ignore_array, b"-90,-80,30,40\0".to_vec());
    d.perform((&lidar_port, &ignore_array), &call);
    assert_eq!(d.destroyed, 1);
    assert_eq!(d.port_at_destroy, b"/dev/ydlidar".to_vec());
    assert_eq!(d.ignore_at_destroy, b"-90,-80,30,40".to_vec());
    drop(lidar_port);
    drop(ignore_array);
}

#[test]
fn release_of_a_fresh_session_hands_out_empty_strings() {
    let (call, lidar_port, ignore_array) = Ydlidar::new().release();
    assert_eq!(call, NativeCall::Destroy);
    assert_eq!(lidar_port, vec![0u8]);
    assert_eq!(ignore_array, vec![0u8]);
}
