use barents::classify::{eq_ignore_ascii_case, process_ais_items};
use barents::live_ais::response_structs::GetAISLatestResponseItem;

fn blank_item() -> GetAISLatestResponseItem {
    GetAISLatestResponseItem {
        type_field: None,
        message_type: None,
        mmsi: None,
        msgtime: None,
        imo_number: None,
        call_sign: None,
        destination: None,
        eta: None,
        name: None,
        draught: None,
        ship_length: None,
        ship_width: None,
        ship_type: None,
        dimension_a: None,
        dimension_b: None,
        dimension_c: None,
        dimension_d: None,
        position_fixing_device_type: None,
        report_class: None,
        type_of_aids_to_navigation: None,
        latitude: None,
        longitude: None,
        type_of_electronic_fixing_device: None,
        course_over_ground: None,
        ais_class: None,
        altitude: None,
        navigational_status: None,
        rate_of_turn: None,
        speed_over_ground: None,
        true_heading: None,
    }
}

fn item_of_kind(kind: &str, mmsi: i64) -> GetAISLatestResponseItem {
    let mut item = blank_item();
    item.type_field = Some(kind.to_string());
    item.mmsi = Some(mmsi);
    item
}

#[test]
fn eq_ignore_ascii_case_matches_mixed_case() {
    assert!(eq_ignore_ascii_case("StaticData", "staticdata"));
    assert!(eq_ignore_ascii_case("ATON", "aton"));
    assert!(eq_ignore_ascii_case("position", "position"));
    assert!(!eq_ignore_ascii_case("positions", "position"));
    assert!(!eq_ignore_ascii_case("aton", "staticdata"));
    assert!(!eq_ignore_ascii_case("", "aton"));
    assert!(eq_ignore_ascii_case("", ""));
}

#[test]
fn splits_one_record_of_each_kind() {
    let records = vec![
        item_of_kind("staticdata", 1),
        item_of_kind("aton", 2),
        item_of_kind("position", 3),
    ];
    let split = process_ais_items(records);
    assert_eq!(split.static_data.len(), 1);
    assert_eq!(split.aton_data.len(), 1);
    assert_eq!(split.position_data.len(), 1);
    assert_eq!(split.static_data[0].mmsi, Some(1));
    assert_eq!(split.aton_data[0].mmsi, Some(2));
    assert_eq!(split.position_data[0].mmsi, Some(3));
}

#[test]
fn discriminant_is_matched_case_insensitively() {
    let records = vec![
        item_of_kind("StaticData", 1),
        item_of_kind("ATON", 2),
        item_of_kind("Position", 3),
    ];
    let split = process_ais_items(records);
    assert_eq!(split.static_data.len(), 1);
    assert_eq!(split.aton_data.len(), 1);
    assert_eq!(split.position_data.len(), 1);
}

#[test]
fn unrecognized_or_absent_discriminants_are_dropped() {
    let records = vec![
        item_of_kind("weather", 1),
        blank_item(),
        item_of_kind("", 2),
        item_of_kind("static", 3),
    ];
    let split = process_ais_items(records);
    assert!(split.static_data.is_empty());
    assert!(split.aton_data.is_empty());
    assert!(split.position_data.is_empty());
}

#[test]
fn split_preserves_relative_input_order() {
    let records = vec![
        item_of_kind("position", 10),
        item_of_kind("staticdata", 11),
        item_of_kind("position", 12),
        item_of_kind("aton", 13),
        item_of_kind("staticdata", 14),
        item_of_kind("position", 15),
    ];
    let split = process_ais_items(records);
    let static_mmsi: Vec<Option<i64>> = split.static_data.iter().map(|d| d.mmsi).collect();
    let aton_mmsi: Vec<Option<i64>> = split.aton_data.iter().map(|d| d.mmsi).collect();
    let position_mmsi: Vec<Option<i64>> = split.position_data.iter().map(|d| d.mmsi).collect();
    assert_eq!(static_mmsi, vec![Some(11), Some(14)]);
    assert_eq!(aton_mmsi, vec![Some(13)]);
    assert_eq!(position_mmsi, vec![Some(10), Some(12), Some(15)]);
}

#[test]
fn splitting_twice_yields_identical_outputs() {
    let records = vec![
        item_of_kind("staticdata", 1),
        item_of_kind("unknown", 2),
        item_of_kind("aton", 3),
        item_of_kind("position", 4),
    ];
    let first = process_ais_items(records.clone());
    let second = process_ais_items(records);
    assert_eq!(first, second);
}

#[test]
fn projection_keeps_all_fields_of_the_record() {
    let mut item = item_of_kind("staticdata", 257000000);
    item.name = Some("MS Test".to_string());
    item.call_sign = Some("LMXQ".to_string());
    item.destination = Some("BERGEN".to_string());
    item.ship_length = Some(112);
    item.msgtime = Some("2023-06-01T12:00:00+00:00".to_string());
    let split = process_ais_items(vec![item]);
    let stat = &split.static_data[0];
    assert_eq!(stat.type_field.as_deref(), Some("staticdata"));
    assert_eq!(stat.mmsi, Some(257000000));
    assert_eq!(stat.name.as_deref(), Some("MS Test"));
    assert_eq!(stat.call_sign.as_deref(), Some("LMXQ"));
    assert_eq!(stat.destination.as_deref(), Some("BERGEN"));
    assert_eq!(stat.ship_length, Some(112));
    assert_eq!(stat.msgtime.as_deref(), Some("2023-06-01T12:00:00+00:00"));
}

#[test]
fn fractional_fields_round_trip_as_bit_patterns() {
    let mut item = item_of_kind("position", 5);
    let lat = 59.9123_f64;
    let lon = 10.7461_f64;
    let sog = 12.3_f64;
    item.latitude = Some(lat.to_bits());
    item.longitude = Some(lon.to_bits());
    item.speed_over_ground = Some(sog.to_bits());
    let split = process_ais_items(vec![item]);
    let pos = &split.position_data[0];
    assert_eq!(f64::from_bits(pos.latitude.unwrap()), lat);
    assert_eq!(f64::from_bits(pos.longitude.unwrap()), lon);
    assert_eq!(f64::from_bits(pos.speed_over_ground.unwrap()), sog);
}
