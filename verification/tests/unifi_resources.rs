use infrazeug_ext::string_map::StringMap;
use infrazeug_ext::unifi::client::{envelope_outcome, first_entry};
use infrazeug_ext::unifi::device::{device_command, Device, DeviceCommand};
use infrazeug_ext::unifi::health::SubsystemHealth;
use infrazeug_ext::unifi::stations::{forget_clients_command, station_command, StationCommand};
use infrazeug_ext::unifi::types::{Meta, UnifiResponse};
use serde_json::Value;

type JsonObject = serde_json::Map<String, Value>;

fn extra_of(obj: &JsonObject, known: &[&str]) -> StringMap<String> {
    let mut extra = StringMap::new();
    for (k, v) in obj {
        if !known.contains(&k.as_str()) {
            extra.insert(k.clone(), v.to_string());
        }
    }
    extra
}

fn s(obj: &JsonObject, k: &str) -> Option<String> {
    obj.get(k).and_then(|v| v.as_str()).map(|x| x.to_string())
}

fn i(obj: &JsonObject, k: &str) -> Option<i64> {
    obj.get(k).and_then(|v| v.as_i64())
}

fn envelope<T>(body: &str, item: impl Fn(&JsonObject) -> T) -> UnifiResponse<T> {
    let v: Value = serde_json::from_str(body).unwrap();
    let meta = v["meta"].as_object().unwrap();
    UnifiResponse {
        meta: Meta { rc: s(meta, "rc").unwrap_or_default(), msg: s(meta, "msg") },
        data: v["data"].as_array().unwrap().iter().map(|d| item(d.as_object().unwrap())).collect(),
    }
}

fn device(o: &JsonObject) -> Device {
    Device {
        id: s(o, "_id"),
        mac: s(o, "mac").unwrap(),
        name: s(o, "name"),
        model: s(o, "model"),
        device_type: s(o, "type"),
        version: s(o, "version"),
        adopted: o.get("adopted").and_then(|v| v.as_bool()),
        disabled: o.get("disabled").and_then(|v| v.as_bool()),
        state: i(o, "state"),
        ip: s(o, "ip"),
        uptime: i(o, "uptime"),
        num_sta: i(o, "num_sta"),
        upgradable: o.get("upgradable").and_then(|v| v.as_bool()),
        extra: extra_of(
            o,
            &["_id", "mac", "name", "model", "type", "version", "adopted", "disabled", "state", "ip", "uptime", "num_sta", "upgradable"],
        ),
    }
}

fn health(o: &JsonObject) -> SubsystemHealth {
    SubsystemHealth {
        subsystem: s(o, "subsystem"),
        status: s(o, "status"),
        num_user: i(o, "num_user"),
        num_guest: i(o, "num_guest"),
        num_iot: i(o, "num_iot"),
        num_ap: i(o, "num_ap"),
        num_sw: i(o, "num_sw"),
        num_gw: i(o, "num_gw"),
        extra: extra_of(o, &["subsystem", "status", "num_user", "num_guest", "num_iot", "num_ap", "num_sw", "num_gw"]),
    }
}

#[test]
fn deserializes_device_envelope() {
    let body = r#"{"meta":{"rc":"ok"},"data":[{
        "_id":"a1","mac":"aa:bb:cc:dd:ee:ff","name":"AP-Office","type":"uap",
        "model":"U6LR","version":"6.6.55","adopted":true,"state":1,
        "ip":"10.0.0.2","uptime":86400,"num_sta":7,"radio_table":[{"name":"ng"}]
    }]}"#;
    let env = envelope(body, device);
    assert!(env.meta.is_ok());
    let data = envelope_outcome(200, body, env).unwrap();
    let d = &data[0];
    assert_eq!(d.mac, "aa:bb:cc:dd:ee:ff");
    assert_eq!(d.device_type.as_deref(), Some("uap"));
    assert_eq!(d.num_sta, Some(7));
    assert!(d.is_connected());
    assert!(d.extra.contains_key("radio_table"));
}

#[test]
fn deserializes_health_envelope() {
    let body = r#"{"meta":{"rc":"ok"},"data":[
        {"subsystem":"wlan","status":"ok","num_user":10,"num_guest":2,"num_ap":3},
        {"subsystem":"www","status":"warning","latency":12}
    ]}"#;
    let env = envelope(body, health);
    assert_eq!(env.data.len(), 2);
    assert!(env.data[0].is_ok());
    assert_eq!(env.data[0].num_ap, Some(3));
    assert!(!env.data[1].is_ok());
    assert!(env.data[1].extra.contains_key("latency"));
}

#[test]
fn device_connection_states() {
    let mut d = Device::default();
    assert!(!d.is_connected());
    d.state = Some(0);
    assert!(!d.is_connected());
    d.state = Some(5);
    assert!(!d.is_connected());
    d.state = Some(1);
    assert!(d.is_connected());
    assert!(!SubsystemHealth::default().is_ok());
}

#[test]
fn manager_command_bodies() {
    let c = device_command(DeviceCommand::ForceProvision, "aa:bb");
    assert_eq!((c.cmd.as_str(), c.mac.as_str()), ("force-provision", "aa:bb"));
    assert_eq!(device_command(DeviceCommand::Restart, "m").cmd, "restart");
    assert_eq!(device_command(DeviceCommand::Adopt, "m").cmd, "adopt");
    assert_eq!(station_command(StationCommand::Block, "m").cmd, "block-sta");
    assert_eq!(station_command(StationCommand::Unblock, "m").cmd, "unblock-sta");
    let k = station_command(StationCommand::Reconnect, "11:22");
    assert_eq!((k.cmd.as_str(), k.mac.as_str()), ("kick-sta", "11:22"));
    let f = forget_clients_command(&["a", "b"]);
    assert_eq!(f.cmd, "forget-sta");
    assert_eq!(f.macs, vec!["a".to_string(), "b".to_string()]);
}

#[test]
fn first_entry_takes_the_head() {
    assert_eq!(first_entry(vec![3, 4]), Some(3));
    assert_eq!(first_entry(Vec::<u8>::new()), None);
}
