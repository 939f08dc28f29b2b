use rustyscope::codec::{Command, ConfigAction, ConfigErr, Reply, SampleKind};
use rustyscope::communications::{burst_wire_bytes, send_data};
use rustyscope::config::{AdcPin, Config};
use rustyscope::description::abilities;
use rustyscope::device::{
    burst_turn,
    handle_command, handle_frame, read_mode, resolve_fault, set_mode_idle, Mode,
};
use rustyscope::host::{bytes_to_samples, parse_burst_stream};
use rustyscope::mutex::{Mutex, RawSpinlock};
use rustyscope::sampling::{
    burst_capture, busy_wait_till, continuous_round, drain_batch, sample, Adc, Channel, Clock,
};

#[test]
fn enable_pin_ok() {
    let mut config = Config::from_gpios();
    assert_eq!(config.apply(ConfigAction::AnalogPins(2)), Ok(()));
    assert_eq!(config.apply(ConfigAction::AnalogPins(31)), Ok(()));
}

#[test]
fn enable_pin_twice_pin_taken() {
    let mut config = Config::from_gpios();
    assert_eq!(config.apply(ConfigAction::AnalogPins(2)), Ok(()));
    assert_eq!(config.apply(ConfigAction::AnalogPins(2)), Err(ConfigErr::PinTaken(2)));
}

#[test]
fn invalid_pin_rejected() {
    let mut config = Config::from_gpios();
    for pin in [0u8, 1, 6, 27, 32, 99, 255] {
        assert_eq!(config.apply(ConfigAction::AnalogPins(pin)), Err(ConfigErr::InvalidPin(pin)));
    }
}

#[test]
fn digital_pin_unimplemented() {
    let mut config = Config::from_gpios();
    assert_eq!(config.apply(ConfigAction::DigitalPins(2)), Err(ConfigErr::Unimplemented));
}

#[test]
fn analog_rate_unimplemented() {
    let mut config = Config::from_gpios();
    assert_eq!(config.apply(ConfigAction::AnalogRate(250)), Err(ConfigErr::Unimplemented));
}

#[test]
fn reset_pins_returns_all() {
    let mut config = Config::from_gpios();
    assert_eq!(config.apply(ConfigAction::AnalogPins(2)), Ok(()));
    assert_eq!(config.apply(ConfigAction::AnalogPins(3)), Ok(()));
    assert_eq!(config.apply(ConfigAction::ResetPins), Ok(()));
    assert_eq!(config.apply(ConfigAction::AnalogPins(2)), Ok(()));
    assert_eq!(config.apply(ConfigAction::AnalogPins(3)), Ok(()));
}

#[test]
fn reset_twice_idempotent() {
    let mut config = Config::from_gpios();
    assert_eq!(config.apply(ConfigAction::AnalogPins(5)), Ok(()));
    assert_eq!(config.apply(ConfigAction::ResetPins), Ok(()));
    assert_eq!(config.apply(ConfigAction::ResetPins), Ok(()));
    for pin in [2u8, 3, 4, 5, 28, 29, 30, 31] {
        assert_eq!(config.apply(ConfigAction::AnalogPins(pin)), Ok(()));
    }
}

#[test]
fn enable_all_catalog_pins() {
    let mut config = Config::from_gpios();
    for pin in [2u8, 3, 4, 5, 28, 29, 30, 31] {
        assert_eq!(config.apply(ConfigAction::AnalogPins(pin)), Ok(()));
    }
    for pin in [2u8, 3, 4, 5, 28, 29, 30, 31] {
        assert_eq!(config.apply(ConfigAction::AnalogPins(pin)), Err(ConfigErr::PinTaken(pin)));
    }
}

#[test]
fn command_handler_transitions() {
    let mut config = Config::from_gpios();
    let mut mode = Mutex::new(Mode::Idle);
    assert_eq!(handle_command(&mut mode, &mut config, Command::Continues(SampleKind::Analog)), None);
    assert_eq!(read_mode(&mut mode), Mode::Continues(SampleKind::Analog));
    // a successful Config leaves the mode unchanged
    assert_eq!(handle_command(&mut mode, &mut config, Command::Config(ConfigAction::ResetPins)), None);
    assert_eq!(read_mode(&mut mode), Mode::Continues(SampleKind::Analog));
    assert_eq!(handle_command(&mut mode, &mut config, Command::Burst(SampleKind::Digital)), None);
    assert_eq!(read_mode(&mut mode), Mode::Burst(SampleKind::Digital));
    assert_eq!(handle_command(&mut mode, &mut config, Command::Stop), None);
    assert_eq!(read_mode(&mut mode), Mode::Idle);
}

#[test]
fn config_error_faults_then_idle() {
    let mut config = Config::from_gpios();
    let mut mode = Mutex::new(Mode::Idle);
    let reply = handle_command(&mut mode, &mut config, Command::Config(ConfigAction::AnalogPins(99)));
    assert_eq!(reply, Some(Reply::Fault(ConfigErr::InvalidPin(99))));
    assert_eq!(read_mode(&mut mode), Mode::Faulted(ConfigErr::InvalidPin(99)));
    assert_eq!(resolve_fault(&mut mode), Some(ConfigErr::InvalidPin(99)));
    assert_eq!(read_mode(&mut mode), Mode::Idle);
}

#[test]
fn handle_frame_bad_frame() {
    let mut config = Config::from_gpios();
    let mut mode = Mutex::new(Mode::Idle);
    let garbage = vec![9u8, 9, 9, 9, 9, 9];
    let reply = handle_frame(&mut mode, &mut config, &garbage);
    assert_eq!(reply, Some(Reply::Fault(ConfigErr::CommunicationProblem)));
    assert_eq!(read_mode(&mut mode), Mode::Idle);
    let frame = Command::Burst(SampleKind::Analog).serialize();
    assert_eq!(handle_frame(&mut mode, &mut config, &frame), None);
    assert_eq!(read_mode(&mut mode), Mode::Burst(SampleKind::Analog));
}

#[test]
fn burst_round_robin_order() {
    let mut config = Config::from_gpios();
    assert_eq!(config.apply(ConfigAction::AnalogPins(2)), Ok(()));
    assert_eq!(config.apply(ConfigAction::AnalogPins(3)), Ok(()));
    let mut adc = Adc::new(vec![10, 20, 30, 40, 50]);
    let mut clock = Clock { micros: 0 };
    let (data, duration) = burst_capture(&mut adc, &mut clock, &mut config, 5).unwrap();
    assert_eq!(data, vec![10, 20, 30, 40, 50]);
    assert_eq!(adc.reads, vec![2, 3, 2, 3, 2]);
    assert_eq!(duration, 0);
}

#[test]
fn burst_scenario_end_to_end() {
    let mut config = Config::from_gpios();
    let mut mode = Mutex::new(Mode::Idle);
    assert_eq!(
        handle_command(&mut mode, &mut config, Command::Config(ConfigAction::AnalogPins(2))),
        None
    );
    assert_eq!(handle_command(&mut mode, &mut config, Command::Burst(SampleKind::Analog)), None);
    assert_eq!(read_mode(&mut mode), Mode::Burst(SampleKind::Analog));
    let mut adc = Adc::new(vec![5, 6, 7, 8]);
    let mut clock = Clock { micros: 1000 };
    let (data, duration) = burst_capture(&mut adc, &mut clock, &mut config, 4).unwrap();
    let wire = burst_wire_bytes(&data, duration);
    set_mode_idle(&mut mode);
    assert_eq!(read_mode(&mut mode), Mode::Idle);
    // the stream ends with exactly one Done frame
    let done: Vec<u8> = wire[wire.len() - 6..].to_vec();
    assert_eq!(Reply::try_from(&done).unwrap(), Reply::Done(duration as u32));
    // the Data frames total the captured buffer size
    let (payload, reported) = parse_burst_stream(&wire).unwrap();
    assert_eq!(payload.len(), 8);
    assert_eq!(reported, duration as u32);
    let samples = bytes_to_samples(&payload);
    assert_eq!(samples, vec![5u16, 6, 7, 8]);
}

#[test]
fn continuous_round_queues_in_order() {
    let mut config = Config::from_gpios();
    assert_eq!(config.apply(ConfigAction::AnalogPins(2)), Ok(()));
    assert_eq!(config.apply(ConfigAction::AnalogPins(3)), Ok(()));
    let mut adc = Adc::new(vec![100, -100]);
    let mut channel = Channel::new();
    assert_eq!(continuous_round(&mut adc, &mut config, &mut channel), Ok(()));
    assert_eq!(adc.reads, vec![2, 3]);
    assert_eq!(channel.receive(), Some(100));
    assert_eq!(channel.receive(), Some(-100));
    assert_eq!(channel.receive(), None);
}

#[test]
fn continuous_round_read_failure() {
    let mut config = Config::from_gpios();
    assert_eq!(config.apply(ConfigAction::AnalogPins(2)), Ok(()));
    assert_eq!(config.apply(ConfigAction::AnalogPins(3)), Ok(()));
    let mut adc = Adc::new(vec![100]);
    let mut channel = Channel::new();
    assert_eq!(
        continuous_round(&mut adc, &mut config, &mut channel),
        Err(ConfigErr::CommunicationProblem)
    );
    assert_eq!(channel.receive(), None);
    assert_eq!(adc.reads.len(), 0);
}

#[test]
fn drain_batch_in_order() {
    let mut channel = Channel::new();
    for v in 0..9 {
        assert!(channel.try_send(v as i16));
    }
    let batch = drain_batch(&mut channel).unwrap();
    assert_eq!(batch, vec![0i16, 1, 2, 3, 4, 5, 6, 7]);
    assert_eq!(drain_batch(&mut channel), None);
    assert_eq!(channel.receive(), Some(8));
}

#[test]
fn channel_backpressure() {
    let mut channel = Channel::new();
    for v in 0..32 {
        assert!(channel.try_send(v as i16));
    }
    assert!(!channel.try_send(99));
    assert_eq!(channel.receive(), Some(0));
    assert!(channel.try_send(99));
}

#[test]
fn sample_exhausted_reports_error() {
    let mut adc = Adc::new(vec![7]);
    let pin = AdcPin::from_id(2).unwrap();
    assert_eq!(sample(&mut adc, &pin), Ok(7));
    assert_eq!(sample(&mut adc, &pin), Err(ConfigErr::CommunicationProblem));
    assert_eq!(adc.reads, vec![2]);
}

#[test]
fn adc_pin_ids() {
    for id in [2u8, 3, 4, 5, 28, 29, 30, 31] {
        assert_eq!(AdcPin::from_id(id).unwrap().id(), id);
    }
    assert!(AdcPin::from_id(7).is_none());
    assert!(AdcPin::from_id(0).is_none());
}

#[test]
fn busy_wait_monotonic() {
    let mut clock = Clock { micros: 5 };
    busy_wait_till(&mut clock, 10);
    assert_eq!(clock.micros, 10);
    busy_wait_till(&mut clock, 3);
    assert_eq!(clock.micros, 10);
}

#[test]
fn spinlock_try_lock() {
    let mut lock = RawSpinlock::new();
    assert!(lock.try_lock());
    assert!(!lock.try_lock());
    lock.unlock();
    lock.lock();
    assert!(!lock.try_lock());
}

#[test]
fn abilities_catalog() {
    let a = abilities();
    assert_eq!(a.adc_pins, vec![2u8, 3, 4, 5, 28, 29, 30, 31]);
    assert_eq!(a.adc_res, vec![8u8, 10, 12, 14]);
    assert_eq!(a.adc_ref, vec!["internal (0.6 V)", "VDD/4"]);
}

#[test]
fn sender_turn_frames_batch() {
    let mut channel = Channel::new();
    assert_eq!(send_data(&mut channel), None);
    for v in 0..10 {
        assert!(channel.try_send(v as i16));
    }
    let wire = send_data(&mut channel).unwrap();
    assert_eq!(wire.len(), 6 + 16);
    let header: Vec<u8> = wire[0..6].to_vec();
    assert_eq!(Reply::try_from(&header).unwrap(), Reply::Data(16));
    // the batch left in queue order: samples 0..8, little-endian
    assert_eq!(&wire[6..10], &[0u8, 0, 1, 0]);
    // the queue keeps the rest
    assert_eq!(channel.receive(), Some(8));
    assert_eq!(channel.receive(), Some(9));
}

#[test]
fn burst_turn_captures_and_idles() {
    let mut config = Config::from_gpios();
    assert_eq!(config.apply(ConfigAction::AnalogPins(2)), Ok(()));
    let mut mode = Mutex::new(Mode::Burst(SampleKind::Analog));
    let mut adc = Adc::new(vec![1, 2, 3]);
    let mut clock = Clock { micros: 0 };
    let wire = burst_turn(&mut adc, &mut clock, &mut config, &mut mode, 3).unwrap();
    assert_eq!(read_mode(&mut mode), Mode::Idle);
    let (payload, _) = parse_burst_stream(&wire).unwrap();
    assert_eq!(bytes_to_samples(&payload), vec![1u16, 2, 3]);
}

#[test]
fn burst_turn_read_failure_faults() {
    let mut config = Config::from_gpios();
    assert_eq!(config.apply(ConfigAction::AnalogPins(2)), Ok(()));
    let mut mode = Mutex::new(Mode::Burst(SampleKind::Analog));
    let mut adc = Adc::new(vec![1]);
    let mut clock = Clock { micros: 0 };
    let out = burst_turn(&mut adc, &mut clock, &mut config, &mut mode, 3);
    assert_eq!(out, Err(ConfigErr::CommunicationProblem));
    assert_eq!(read_mode(&mut mode), Mode::Faulted(ConfigErr::CommunicationProblem));
    assert_eq!(resolve_fault(&mut mode), Some(ConfigErr::CommunicationProblem));
    assert_eq!(read_mode(&mut mode), Mode::Idle);
}
