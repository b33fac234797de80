use modbus_mqtt_bridge::firmware::registry_map::{
    RegistryEntry, RegistryMap, RegistryType, RegistryValueType,
};

#[test]
fn firmware_line_reads_every_field() {
    let entry = RegistryEntry::parse_from_line("h,40001,f,phase/voltage");
    assert_eq!(entry.reg_type, RegistryType::Holding);
    assert_eq!(entry.address, 40001);
    assert_eq!(entry.reg_value_type, RegistryValueType::Float);
    assert_eq!(entry.topic, "phase/voltage");
}

#[test]
fn firmware_line_of_an_input_register() {
    let entry = RegistryEntry::parse_from_line("i,0,f,t,ignored");
    assert_eq!(entry.reg_type, RegistryType::Input);
    assert_eq!(entry.address, 0);
    assert_eq!(entry.topic, "t");
}

#[test]
fn firmware_line_refusals() {
    for line in ["", "h,1,f", "x,1,f,t", "h,70000,f,t", "h,1,f32,t", "1,0,i,f32,t"] {
        assert!(RegistryEntry::try_parse_from_line(line).is_none(), "{:?}", line);
    }
}

#[test]
fn firmware_map_yields_the_lines_in_order() {
    let mut map = RegistryMap::new("h,1,f,a\r\ni,2,f,b\n");
    let a = map.next().unwrap();
    assert_eq!((a.reg_type, a.address, a.topic), (RegistryType::Holding, 1, "a"));
    let b = map.next().unwrap();
    assert_eq!((b.reg_type, b.address, b.topic), (RegistryType::Input, 2, "b"));
    assert!(map.next().is_none());
}
