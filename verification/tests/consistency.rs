use latte_scripting::alternator::consistency::Consistency as AlternatorConsistency;
use latte_scripting::cql::consistency::{Consistency, SerialConsistency};
use scylla::frame::types::Consistency as DriverLevel;
use scylla::frame::types::SerialConsistency as DriverSerialLevel;

#[test]
fn every_name_and_alias_of_a_level() {
    let cases = [
        ("any", Consistency::Any),
        ("one", Consistency::One),
        ("1", Consistency::One),
        ("two", Consistency::Two),
        ("2", Consistency::Two),
        ("three", Consistency::Three),
        ("3", Consistency::Three),
        ("quorum", Consistency::Quorum),
        ("q", Consistency::Quorum),
        ("all", Consistency::All),
        ("local_one", Consistency::LocalOne),
        ("localone", Consistency::LocalOne),
        ("l1", Consistency::LocalOne),
        ("local_quorum", Consistency::LocalQuorum),
        ("localquorum", Consistency::LocalQuorum),
        ("lq", Consistency::LocalQuorum),
        ("each_quorum", Consistency::EachQuorum),
        ("eachquorum", Consistency::EachQuorum),
        ("eq", Consistency::EachQuorum),
        ("serial", Consistency::Serial),
        ("s", Consistency::Serial),
        ("local_serial", Consistency::LocalSerial),
        ("localserial", Consistency::LocalSerial),
        ("ls", Consistency::LocalSerial),
    ];
    for (name, level) in cases {
        assert_eq!(Consistency::from_str(name, false), Ok(level), "{}", name);
        assert_eq!(Consistency::from_lowercase(name), Some(level), "{}", name);
    }
}

#[test]
fn names_are_read_in_any_case() {
    assert_eq!(Consistency::from_str("QUORUM", true), Ok(Consistency::Quorum));
    assert_eq!(Consistency::from_str("Local_Quorum", false), Ok(Consistency::LocalQuorum));
    assert_eq!(Consistency::from_str("LQ", false), Ok(Consistency::LocalQuorum));
    assert_eq!(Consistency::from_str("EACH_QUORUM", false), Ok(Consistency::EachQuorum));
    assert_eq!(SerialConsistency::from_str("LOCAL_SERIAL", false), Ok(SerialConsistency::LocalSerial));
    assert_eq!(AlternatorConsistency::from_str("Strong", false), Ok(AlternatorConsistency::Strong));
    assert_eq!(Consistency::from_lowercase("QUORUM"), None);
}

#[test]
fn shown_names_are_read_back() {
    for level in Consistency::value_variants() {
        assert_eq!(Consistency::from_str(level.possible_value_name(), false), Ok(level));
    }
    for level in SerialConsistency::value_variants() {
        assert_eq!(SerialConsistency::from_str(level.possible_value_name(), false), Ok(level));
    }
    for level in AlternatorConsistency::value_variants() {
        assert_eq!(AlternatorConsistency::from_str(level.possible_value_name(), false), Ok(level));
    }
}

#[test]
fn unknown_names_are_refused_in_lower_case() {
    assert_eq!(
        Consistency::from_str("Majority", false),
        Err("Unknown consistency level majority".to_string())
    );
    assert_eq!(Consistency::from_str("", false), Err("Unknown consistency level ".to_string()));
    assert_eq!(
        Consistency::from_str("local quorum", false),
        Err("Unknown consistency level local quorum".to_string())
    );
    assert_eq!(Consistency::from_str("4", false), Err("Unknown consistency level 4".to_string()));
    assert_eq!(
        SerialConsistency::from_str("QUORUM", false),
        Err("Unknown serial consistency level quorum".to_string())
    );
    assert_eq!(
        AlternatorConsistency::from_str("QUORUM", false),
        Err("Unknown consistency level quorum".to_string())
    );
}

#[test]
fn levels_in_the_order_of_declaration() {
    assert_eq!(
        Consistency::value_variants(),
        vec![
            Consistency::Any,
            Consistency::One,
            Consistency::Two,
            Consistency::Three,
            Consistency::Quorum,
            Consistency::All,
            Consistency::LocalOne,
            Consistency::LocalQuorum,
            Consistency::EachQuorum,
            Consistency::Serial,
            Consistency::LocalSerial,
        ]
    );
    assert_eq!(
        SerialConsistency::value_variants(),
        vec![SerialConsistency::Serial, SerialConsistency::LocalSerial]
    );
    assert_eq!(
        AlternatorConsistency::value_variants(),
        vec![AlternatorConsistency::Eventual, AlternatorConsistency::Strong]
    );
}

#[test]
fn shown_names() {
    let names: Vec<&str> =
        Consistency::value_variants().iter().map(|c| c.possible_value_name()).collect();
    assert_eq!(
        names,
        vec![
            "ANY",
            "ONE",
            "TWO",
            "THREE",
            "QUORUM",
            "ALL",
            "LOCAL_ONE",
            "LOCAL_QUORUM",
            "EACH_QUORUM",
            "SERIAL",
            "LOCAL_SERIAL"
        ]
    );
    assert_eq!(SerialConsistency::Serial.possible_value_name(), "SERIAL");
    assert_eq!(SerialConsistency::LocalSerial.possible_value_name(), "LOCAL_SERIAL");
    assert_eq!(AlternatorConsistency::Eventual.possible_value_name(), "EVENTUAL");
    assert_eq!(AlternatorConsistency::Strong.possible_value_name(), "STRONG");
}

#[test]
fn default_levels() {
    assert_eq!(Consistency::default(), Consistency::LocalQuorum);
    assert_eq!(SerialConsistency::default(), SerialConsistency::LocalSerial);
    assert_eq!(AlternatorConsistency::default(), AlternatorConsistency::Eventual);
}

#[test]
fn serial_levels_and_their_aliases() {
    for (name, level) in [
        ("serial", SerialConsistency::Serial),
        ("s", SerialConsistency::Serial),
        ("local_serial", SerialConsistency::LocalSerial),
        ("localserial", SerialConsistency::LocalSerial),
        ("ls", SerialConsistency::LocalSerial),
    ] {
        assert_eq!(SerialConsistency::from_str(name, false), Ok(level));
    }
}

#[test]
fn alternator_levels_become_the_drivers() {
    assert_eq!(
        AlternatorConsistency::Eventual.consistency(),
        aws_sdk_dynamodb::types::MultiRegionConsistency::Eventual
    );
    assert_eq!(
        AlternatorConsistency::Strong.consistency(),
        aws_sdk_dynamodb::types::MultiRegionConsistency::Strong
    );
    assert_eq!(AlternatorConsistency::from_str("eventual", false), Ok(AlternatorConsistency::Eventual));
}

#[test]
fn levels_become_the_drivers_of_the_same_name() {
    let pairs = [
        (Consistency::Any, DriverLevel::Any),
        (Consistency::One, DriverLevel::One),
        (Consistency::Two, DriverLevel::Two),
        (Consistency::Three, DriverLevel::Three),
        (Consistency::Quorum, DriverLevel::Quorum),
        (Consistency::All, DriverLevel::All),
        (Consistency::LocalOne, DriverLevel::LocalOne),
        (Consistency::LocalQuorum, DriverLevel::LocalQuorum),
        (Consistency::EachQuorum, DriverLevel::EachQuorum),
        (Consistency::Serial, DriverLevel::Serial),
        (Consistency::LocalSerial, DriverLevel::LocalSerial),
    ];
    assert_eq!(pairs.len(), Consistency::value_variants().len());
    for (level, driver) in pairs {
        assert_eq!(level.consistency(), driver, "{:?}", level);
        assert_eq!(level.wire_code(), driver as u16, "{:?}", level);
    }
}

#[test]
fn serial_levels_become_the_drivers_of_the_same_name() {
    assert_eq!(SerialConsistency::Serial.serial_consistency(), DriverSerialLevel::Serial);
    assert_eq!(SerialConsistency::LocalSerial.serial_consistency(), DriverSerialLevel::LocalSerial);
    assert_eq!(SerialConsistency::Serial.wire_code(), DriverSerialLevel::Serial as i16);
    assert_eq!(SerialConsistency::LocalSerial.wire_code(), DriverSerialLevel::LocalSerial as i16);
}
