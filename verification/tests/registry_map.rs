use modbus_mqtt_bridge::registry_map::{RegistryEntry, RegistryMap, RegistryType, RegistryValueType};

#[test]
fn parse_from_line_reads_every_field() {
    let entry = RegistryEntry::parse_from_line("1,0,i,f32,l1_voltage");
    assert_eq!(entry.device_id, 1);
    assert_eq!(entry.address, 0);
    assert_eq!(entry.reg_type, RegistryType::Input);
    assert_eq!(entry.reg_value_type, RegistryValueType::Float32);
    assert_eq!(entry.topic, "l1_voltage");
}

#[test]
fn parse_from_line_reads_holding_and_every_value_type() {
    let cases = [
        ("f32", RegistryValueType::Float32),
        ("u8", RegistryValueType::Unsigned8),
        ("i8", RegistryValueType::Int8),
        ("u16", RegistryValueType::Unsigned16),
        ("i16", RegistryValueType::Int16),
        ("u32", RegistryValueType::Unsigned32),
        ("i32", RegistryValueType::Int32),
        ("u64", RegistryValueType::Unsigned64),
        ("i64", RegistryValueType::Int64),
        ("f64", RegistryValueType::Float64),
    ];
    for (code, expected) in cases {
        let line = format!("255,65535,h,{},power", code);
        let entry = RegistryEntry::parse_from_line(&line);
        assert_eq!(entry.device_id, 255);
        assert_eq!(entry.address, 65535);
        assert_eq!(entry.reg_type, RegistryType::Holding);
        assert_eq!(entry.reg_value_type, expected);
        assert_eq!(entry.topic, "power");
    }
}

#[test]
fn parse_from_line_ignores_fields_after_the_topic() {
    let entry = RegistryEntry::parse_from_line("3,17,h,u16,energy,extra,more");
    assert_eq!(entry.topic, "energy");
    assert_eq!(entry.address, 17);
}

#[test]
fn parse_from_line_accepts_a_plus_sign_and_leading_zeros() {
    let entry = RegistryEntry::parse_from_line("+7,0012,i,u8,");
    assert_eq!(entry.device_id, 7);
    assert_eq!(entry.address, 12);
    assert_eq!(entry.topic, "");
}

#[test]
fn try_parse_from_line_refuses_what_is_not_a_line() {
    for line in [
        "",
        "1,0,i,f32",
        "256,0,i,f32,t",
        "1,65536,i,f32,t",
        "-1,0,i,f32,t",
        "+,0,i,f32,t",
        "1,,i,f32,t",
        "1,0x1,i,f32,t",
        "1,0,x,f32,t",
        "1,0,I,f32,t",
        "1,0,i,f16,t",
        "1,0,i,F32,t",
        " 1,0,i,f32,t",
    ] {
        assert!(RegistryEntry::try_parse_from_line(line).is_none(), "{:?}", line);
    }
}

#[test]
fn try_parse_from_line_agrees_with_parse_from_line() {
    let entry = RegistryEntry::try_parse_from_line("9,300,h,i32,pressure").unwrap();
    assert_eq!(entry.device_id, 9);
    assert_eq!(entry.address, 300);
    assert_eq!(entry.reg_type, RegistryType::Holding);
    assert_eq!(entry.reg_value_type, RegistryValueType::Int32);
    assert_eq!(entry.topic, "pressure");
}

#[test]
fn topic_keeps_non_ascii_text() {
    let entry = RegistryEntry::parse_from_line("1,2,i,f32,température/°C");
    assert_eq!(entry.topic, "température/°C");
}

#[test]
fn registry_map_yields_the_lines_in_order() {
    let mut map = RegistryMap::new("1,0,i,f32,a\r\n2,4,h,u16,b\n3,8,i,i8,c");
    let first = map.next().unwrap();
    assert_eq!((first.device_id, first.address, first.topic), (1, 0, "a"));
    let second = map.next().unwrap();
    assert_eq!((second.device_id, second.address, second.topic), (2, 4, "b"));
    let third = map.next().unwrap();
    assert_eq!((third.device_id, third.address, third.topic), (3, 8, "c"));
    assert!(map.next().is_none());
    assert!(map.next().is_none());
}

#[test]
fn registry_map_final_line_ending_is_optional() {
    let mut map = RegistryMap::new("1,0,i,f32,a\n");
    assert_eq!(map.next().unwrap().topic, "a");
    assert!(map.next().is_none());
}

#[test]
fn registry_map_of_empty_text_has_no_entries() {
    let mut map = RegistryMap::new("");
    assert!(map.next().is_none());
}

#[test]
fn registry_map_keeps_a_bare_carriage_return_of_the_last_line() {
    let mut map = RegistryMap::new("1,0,i,f32,a\r");
    assert_eq!(map.next().unwrap().topic, "a\r");
}

#[test]
fn registry_map_reads_a_borrowed_text_in_line_order() {
    let text = String::from("1,0,i,f32,a\n2,1,i,f32,b\n3,2,h,u16,c");
    let lines: Vec<&str> = text.lines().collect();
    let mut map = RegistryMap::new(&text);
    for line in &lines {
        let expected = RegistryEntry::parse_from_line(line);
        let got = map.next().unwrap();
        assert_eq!((got.device_id, got.address, got.topic), (expected.device_id, expected.address, expected.topic));
    }
    for _ in 0..3 {
        assert!(map.next().is_none());
    }
}
