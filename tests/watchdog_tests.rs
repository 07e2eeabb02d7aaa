use watchdog::alert::{cpu_alert_message, Alert};
use watchdog::config::Config;
use watchdog::device::get_device_name;
use watchdog::ingest::handle_message;
use watchdog::parser::{classify_key, Kind, decode_cpu_load, decode_ram_usage, decode_service_event, parse_data, ParseError};
use watchdog::system_value::{CpuLoad, RamUsage, ServiceEvent, ServiceEventType, SystemValue};
use watchdog::watchdog::Watchdog;

fn config(cpu_max: i32, ram_max: i32, delicate: &[&str]) -> Config {
    Config {
        host: "amqp://localhost:5672".to_string(),
        exchange_name: "telemetry".to_string(),
        routing_key: "#".to_string(),
        cpu_max,
        ram_max,
        delicate_processes: delicate.iter().map(|s| s.to_string()).collect(),
    }
}

fn watchdog(cpu_max: i32, delicate: &[&str]) -> Watchdog {
    Watchdog::new(Box::new(config(cpu_max, 90, delicate)))
}

fn cpu(load: i32) -> SystemValue {
    SystemValue::CpuLoadValue(CpuLoad { load })
}

fn ram(used_mb: i32, total_mb: i32) -> SystemValue {
    SystemValue::RamUsageValue(RamUsage { used_mb, total_mb })
}

fn service(executable: &str, event: ServiceEventType) -> SystemValue {
    SystemValue::ServiceEventValue(ServiceEvent {
        executable: executable.to_string(),
        service_event_type: event.to_i32(),
    })
}

fn message(a: &Option<Alert>) -> Option<(String, String)> {
    a.as_ref().map(|a| (a.device.clone(), a.message.clone()))
}

#[test]
fn cpu_key_with_suffix_decodes_as_cpu_load() {
    match parse_data("sensor1.cpu.load.v2", vec![0x08, 42]) {
        Ok(SystemValue::CpuLoadValue(c)) => assert_eq!(c.load, 42),
        _ => panic!("expected a CPU load value"),
    }
    match parse_data("xcpu.loadx", vec![0x08, 7]) {
        Ok(SystemValue::CpuLoadValue(c)) => assert_eq!(c.load, 7),
        _ => panic!("expected a CPU load value"),
    }
}

#[test]
fn cpu_pattern_wins_over_later_patterns() {
    match parse_data("a.cpu.load.ram.usage", vec![0x08, 3]) {
        Ok(SystemValue::CpuLoadValue(c)) => assert_eq!(c.load, 3),
        _ => panic!("expected a CPU load value"),
    }
}

#[test]
fn ram_and_service_keys_pick_their_records() {
    match parse_data("h.ram.usage", vec![0x08, 0xD8, 0x04, 0x10, 0xE8, 0x07]) {
        Ok(SystemValue::RamUsageValue(m)) => {
            assert_eq!(m.used_mb, 600);
            assert_eq!(m.total_mb, 1000);
        }
        _ => panic!("expected a RAM usage value"),
    }
    match parse_data("h.service.event", vec![0x0A, 0x02, b'd', b'b', 0x10, 0x01]) {
        Ok(SystemValue::ServiceEventValue(s)) => {
            assert_eq!(s.executable, "db");
            assert_eq!(s.service_event_type, 1);
        }
        _ => panic!("expected a service event"),
    }
}

#[test]
fn unknown_key_is_a_classification_error() {
    match parse_data("sensor1.disk.io", vec![0x08, 1]) {
        Err(ParseError::NoMatchingKey(k)) => assert_eq!(k, "sensor1.disk.io"),
        _ => panic!("expected a classification error"),
    }
}

#[test]
fn unknown_key_is_dropped_by_the_loop() {
    let w = watchdog(10, &["db"]);
    let r = handle_message(&w, "sensor1.disk.io", vec![0x08, 99]);
    assert!(matches!(r, Ok(None)));
}

#[test]
fn malformed_payload_is_a_decode_error() {
    assert!(matches!(parse_data("a.cpu.load", vec![0x08]), Err(ParseError::Decode(_))));
    assert!(matches!(parse_data("a.cpu.load", vec![0x08, 0x80]), Err(ParseError::Decode(_))));
    // field 1 sent as a length-delimited value
    assert!(decode_cpu_load(&[0x0A, 0x00]).is_err());
    // executable that is not UTF-8
    assert!(decode_service_event(&[0x0A, 0x01, 0xFF]).is_err());
    // length beyond the payload
    assert!(decode_service_event(&[0x0A, 0x05, b'a']).is_err());
    // tag zero
    assert!(decode_ram_usage(&[0x00, 0x01]).is_err());
    let w = watchdog(10, &[]);
    assert!(handle_message(&w, "n.cpu.load", vec![0x08]).is_err());
}

#[test]
fn decoder_edge_cases() {
    assert_eq!(decode_cpu_load(&[]).unwrap().load, 0);
    // unknown field 3 is passed over
    assert_eq!(decode_cpu_load(&[0x18, 0x05, 0x08, 0x07]).unwrap().load, 7);
    // a later value of the field wins
    assert_eq!(decode_cpu_load(&[0x08, 0x01, 0x08, 0x02]).unwrap().load, 2);
    // negative int32 is ten bytes long
    let minus_one = [0x08, 0xFF, 0xFF, 0xFF, 0xFF, 0xFF, 0xFF, 0xFF, 0xFF, 0xFF, 0x01];
    assert_eq!(decode_cpu_load(&minus_one).unwrap().load, -1);
    let m = decode_ram_usage(&[0x10, 0x04]).unwrap();
    assert_eq!((m.used_mb, m.total_mb), (0, 4));
}

#[test]
fn device_is_text_before_first_dot() {
    assert_eq!(get_device_name("sensor1.cpu.load"), Some("sensor1".to_string()));
    assert_eq!(get_device_name("a.b.c"), Some("a".to_string()));
    assert_eq!(get_device_name(".cpu.load"), Some("".to_string()));
    assert_eq!(get_device_name("nodot"), None);
}

#[test]
fn key_without_device_is_dropped() {
    let w = watchdog(10, &[]);
    assert!(matches!(handle_message(&w, "cpuload", vec![0x08, 99]), Ok(None)));
    // not even decoded: a malformed payload gives no error
    assert!(matches!(handle_message(&w, "cpu", vec![0x08]), Ok(None)));
}

#[test]
fn cpu_rule_is_strictly_greater() {
    let w = watchdog(80, &[]);
    assert!(w.check_cpu_load(&CpuLoad { load: 81 }));
    assert!(!w.check_cpu_load(&CpuLoad { load: 80 }));
    assert!(w.on_system_value("dev", &cpu(81)).is_some());
    assert!(w.on_system_value("dev", &cpu(80)).is_none());
}

#[test]
fn ram_rule_uses_cpu_threshold() {
    let w = Watchdog::new(Box::new(config(50, 99, &[])));
    assert!(w.check_ram_usage(&RamUsage { used_mb: 600, total_mb: 1000 }));
    assert!(!w.check_ram_usage(&RamUsage { used_mb: 400, total_mb: 1000 }));
    assert!(!w.check_ram_usage(&RamUsage { used_mb: 500, total_mb: 1000 }));
    assert!(!w.check_ram_usage(&RamUsage { used_mb: 509, total_mb: 1000 }));
    assert!(w.check_ram_usage(&RamUsage { used_mb: 510, total_mb: 1000 }));
    let a = w.on_system_value("box", &ram(600, 1000));
    assert_eq!(
        message(&a),
        Some(("box".to_string(), "Ram usage is 600mb out of 1000mb (Threshold 50%)".to_string()))
    );
    assert!(w.on_system_value("box", &ram(400, 1000)).is_none());
}

#[test]
fn ram_rule_edge_values() {
    let w = watchdog(50, &[]);
    // zero total never alerts
    assert!(!w.check_ram_usage(&RamUsage { used_mb: 600, total_mb: 0 }));
    // no overflow on large readings
    assert!(w.check_ram_usage(&RamUsage { used_mb: i32::MAX, total_mb: i32::MAX }));
    // division rounds toward zero
    let low = watchdog(-60, &[]);
    assert!(low.check_ram_usage(&RamUsage { used_mb: -599, total_mb: 1000 }));
    assert!(!low.check_ram_usage(&RamUsage { used_mb: -610, total_mb: 1000 }));
}

#[test]
fn service_rule_needs_delicate_stop() {
    let w = watchdog(90, &["auth-service"]);
    let stop = ServiceEvent { executable: "auth-service".to_string(), service_event_type: 1 };
    assert!(w.check_service_event(&stop));
    assert!(w.on_system_value("n", &service("auth-service", ServiceEventType::Stop)).is_some());
    assert!(w.on_system_value("n", &service("auth-service", ServiceEventType::Start)).is_none());
    assert!(w.on_system_value("n", &service("web", ServiceEventType::Stop)).is_none());
    let unknown = ServiceEvent { executable: "auth-service".to_string(), service_event_type: 7 };
    assert!(!w.check_service_event(&unknown));
}

#[test]
fn event_type_wire_values() {
    assert_eq!(ServiceEventType::from_i32(0), Some(ServiceEventType::Start));
    assert_eq!(ServiceEventType::from_i32(1), Some(ServiceEventType::Stop));
    assert_eq!(ServiceEventType::from_i32(2), None);
    assert_eq!(ServiceEventType::Stop.to_i32(), 1);
}

#[test]
fn evaluation_repeats_identically() {
    let w = watchdog(80, &["db"]);
    let v = cpu(95);
    let first = message(&w.on_system_value("d", &v));
    let second = message(&w.on_system_value("d", &v));
    assert_eq!(first, second);
    assert!(first.is_some());
    let quiet = ram(1, 1000);
    assert_eq!(message(&w.on_system_value("d", &quiet)), None);
    assert_eq!(message(&w.on_system_value("d", &quiet)), None);
}

#[test]
fn end_to_end_cpu_alert() {
    let w = Watchdog::new(Box::new(config(90, 90, &["db"])));
    let r = handle_message(&w, "node7.cpu.load", vec![0x08, 95]).ok().unwrap();
    assert_eq!(
        message(&r),
        Some(("node7".to_string(), "CPU load is 95% (Threshold 90%)".to_string()))
    );
    assert_eq!(r.unwrap().line(), "node7 --> CPU load is 95% (Threshold 90%)");
}

#[test]
fn end_to_end_service_alert() {
    let w = Watchdog::new(Box::new(config(90, 90, &["db"])));
    let r = handle_message(&w, "node7.service.event", vec![0x0A, 0x02, b'd', b'b', 0x10, 0x01]);
    let r = r.ok().unwrap();
    assert_eq!(message(&r), Some(("node7".to_string(), "Critical process db crashed".to_string())));
}

#[test]
fn alert_text_numbers_are_decimal() {
    assert_eq!(cpu_alert_message(-5, 100), "CPU load is -5% (Threshold 100%)");
    assert_eq!(cpu_alert_message(0, 7), "CPU load is 0% (Threshold 7%)");
}

#[test]
fn classification_follows_pattern_order() {
    assert_eq!(classify_key("sensor1.cpu.load.v2"), Some(Kind::CpuLoad));
    assert_eq!(classify_key("x.ram.usage"), Some(Kind::RamUsage));
    assert_eq!(classify_key("x.service.event"), Some(Kind::ServiceEvent));
    assert_eq!(classify_key("x.service.event.ram.usage"), Some(Kind::RamUsage));
    assert_eq!(classify_key("x.cpu_load"), None);
    assert_eq!(classify_key(""), None);
}
