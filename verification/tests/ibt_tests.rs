//! Tests of the recorded file layout.

use racing_coach_client::pitwall::adapters::FieldValue;
use racing_coach_client::pitwall::connection::Connection;
use racing_coach_client::pitwall::frame_adapter::FrameLayout;
use racing_coach_client::pitwall::frame_derive::{DeclaredType, FieldStrategy};
use racing_coach_client::pitwall::ibt::{
    frame_bytes, parse_header, parse_schema, parse_variable, read_i32_le, read_text,
    session_yaml, total_frames, type_of_code, Recording, HEADER_SIZE, VAR_HEADER_SIZE,
};
use racing_coach_client::pitwall::provider::ReplayProvider;
use racing_coach_client::pitwall::types::{UpdateRate, VarValue};
use std::sync::Arc;
use racing_coach_client::pitwall::schema::VariableType;
use racing_coach_client::pitwall::types::TelemetryError;

fn put_i32(data: &mut [u8], at: usize, value: i32) {
    data[at..at + 4].copy_from_slice(&value.to_le_bytes());
}

fn var_entry(code: i32, offset: i32, count: i32, name: &str) -> Vec<u8> {
    let mut entry = vec![0u8; VAR_HEADER_SIZE];
    put_i32(&mut entry, 0, code);
    put_i32(&mut entry, 4, offset);
    put_i32(&mut entry, 8, count);
    entry[16..16 + name.len()].copy_from_slice(name.as_bytes());
    entry
}

/// A file with the given directory, metadata text and frames of eight bytes.
fn file(vars: &[Vec<u8>], yaml: &str, frames: &[[u8; 8]]) -> Vec<u8> {
    let var_offset = HEADER_SIZE;
    let yaml_offset = var_offset + vars.len() * VAR_HEADER_SIZE;
    let buf_offset = yaml_offset + yaml.len();
    let mut data = vec![0u8; HEADER_SIZE];
    put_i32(&mut data, 0, 2);
    put_i32(&mut data, 4, 1);
    put_i32(&mut data, 8, 60);
    put_i32(&mut data, 12, 3);
    put_i32(&mut data, 16, yaml.len() as i32);
    put_i32(&mut data, 20, yaml_offset as i32);
    put_i32(&mut data, 24, vars.len() as i32);
    put_i32(&mut data, 28, var_offset as i32);
    put_i32(&mut data, 32, 1);
    put_i32(&mut data, 36, 8);
    put_i32(&mut data, 52, buf_offset as i32);
    for v in vars {
        data.extend_from_slice(v);
    }
    data.extend_from_slice(yaml.as_bytes());
    for f in frames {
        data.extend_from_slice(f);
    }
    data
}

fn sample() -> Vec<u8> {
    file(
        &[var_entry(4, 0, 1, "Speed"), var_entry(2, 4, 1, "Gear")],
        "WeekendInfo:\n TrackName: bathurst\n",
        &[[1, 0, 0, 0, 2, 0, 0, 0], [3, 0, 0, 0, 4, 0, 0, 0], [5, 0, 0, 0, 6, 0, 0, 0]],
    )
}

#[test]
fn test_parse_header() {
    let data = sample();
    let h = parse_header(&data).unwrap();
    assert_eq!(h.version, 2);
    assert_eq!(h.tick_rate, 60);
    assert_eq!(h.session_info_update, 3);
    assert_eq!(h.num_vars, 2);
    assert_eq!(h.var_header_offset, 112);
    assert_eq!(h.buf_len, 8);
    assert_eq!(h.buf_offset as usize, 112 + 2 * 144 + 34);
    assert_eq!(total_frames(&data, &h), 3);
}

#[test]
fn test_parse_header_rejects_corrupt_files() {
    let is_open_error = |data: &[u8]| {
        matches!(parse_header(data), Err(TelemetryError::SourceOpen { .. }))
    };
    assert!(is_open_error(&[]));
    assert!(is_open_error(&sample()[..111]));
    let broken = |at: usize, value: i32| {
        let mut data = sample();
        put_i32(&mut data, at, value);
        data
    };
    assert!(is_open_error(&broken(8, 0)));
    assert!(is_open_error(&broken(8, -60)));
    assert!(is_open_error(&broken(24, -1)));
    assert!(is_open_error(&broken(24, 3)));
    assert!(is_open_error(&broken(28, 1_000_000)));
    assert!(is_open_error(&broken(16, 1_000_000)));
    assert!(is_open_error(&broken(20, -1)));
    assert!(is_open_error(&broken(36, -8)));
    assert!(is_open_error(&broken(52, 1_000_000)));
    assert!(is_open_error(&broken(52, -1)));
    assert!(!is_open_error(&sample()));
    // A header alone is a recording without variables and frames.
    let mut empty = vec![0u8; HEADER_SIZE];
    put_i32(&mut empty, 8, 60);
    let h = parse_header(&empty).unwrap();
    assert_eq!(total_frames(&empty, &h), 0);
    assert_eq!(parse_schema(&empty, &h).unwrap().len(), 0);
}

#[test]
fn test_parse_schema() {
    let data = sample();
    let h = parse_header(&data).unwrap();
    let schema = parse_schema(&data, &h).unwrap();
    assert_eq!(schema.frame_size, 8);
    assert_eq!(schema.variable_names(), vec!["Speed", "Gear"]);
    let gear = schema.get_variable("Gear").unwrap();
    assert_eq!((gear.offset, gear.count, gear.data_type), (4, 1, VariableType::Int));
    assert_eq!(schema.get_variable("Speed").unwrap().data_type, VariableType::Float);
}

#[test]
fn test_parse_schema_rejects_corrupt_directories() {
    let rejected = |vars: &[Vec<u8>]| {
        let data = file(vars, "", &[]);
        let h = parse_header(&data).unwrap();
        matches!(parse_schema(&data, &h), Err(TelemetryError::SourceOpen { .. }))
    };
    assert!(rejected(&[var_entry(6, 0, 1, "Speed")]));
    assert!(rejected(&[var_entry(-1, 0, 1, "Speed")]));
    assert!(rejected(&[var_entry(4, -4, 1, "Speed")]));
    assert!(rejected(&[var_entry(4, 0, -1, "Speed")]));
    assert!(rejected(&[var_entry(4, 0, 1, "Speed"), var_entry(2, 4, 1, "Speed")]));
    assert!(!rejected(&[var_entry(4, 0, 1, "Speed"), var_entry(2, 4, 1, "speed")]));
}

#[test]
fn test_parse_variable_and_text() {
    let entry = var_entry(5, 16, 3, "SessionTime");
    let v = parse_variable(&entry, 0).unwrap();
    assert_eq!(v.name, "SessionTime");
    assert_eq!((v.offset, v.count, v.data_type), (16, 3, VariableType::Double));
    // A name that fills all its bytes ends with them.
    let long = "A".repeat(32);
    assert_eq!(parse_variable(&var_entry(0, 0, 1, &long), 0).unwrap().name, long);
    assert_eq!(read_text(b"abc\0def", 0, 7), "abc");
    assert_eq!(read_text(b"abc\0def", 4, 7), "def");
    assert_eq!(read_text(b"abc\0def", 1, 2), "b");
    assert_eq!(read_text(b"abc", 3, 3), "");
    // Each byte is the character of its code.
    assert_eq!(read_text(&[0x41, 0xe9, 0x42], 0, 3), "A\u{e9}B");
    assert_eq!(read_i32_le(&[0xfe, 0xff, 0xff, 0xff], 0), -2);
    assert_eq!(type_of_code(3), Some(VariableType::BitField));
    assert_eq!(type_of_code(1), Some(VariableType::Bool));
    assert_eq!(type_of_code(6), None);
}

#[test]
fn test_frames_and_session_text() {
    let mut data = sample();
    let h = parse_header(&data).unwrap();
    assert_eq!(frame_bytes(&data, &h, 0), Some(vec![1, 0, 0, 0, 2, 0, 0, 0]));
    assert_eq!(frame_bytes(&data, &h, 2), Some(vec![5, 0, 0, 0, 6, 0, 0, 0]));
    assert_eq!(frame_bytes(&data, &h, 3), None);
    assert_eq!(session_yaml(&data, &h), "WeekendInfo:\n TrackName: bathurst\n");
    // Bytes of a frame that was not written to its end do not count.
    data.extend_from_slice(&[9, 9, 9]);
    assert_eq!(total_frames(&data, &h), 3);
    assert_eq!(frame_bytes(&data, &h, 3), None);
}

#[test]
fn test_recording_opens_and_hands_out_packets() {
    let recording = Recording::open(sample()).unwrap();
    assert_eq!(recording.tick_rate(), 60);
    assert_eq!(recording.total_frames(), 3);
    assert_eq!(recording.session_yaml(), "WeekendInfo:\n TrackName: bathurst\n");
    let packet = recording.packet(1).unwrap();
    assert_eq!(packet.tick, 1);
    assert_eq!(packet.session_version, 3);
    assert_eq!(packet.data, vec![3, 0, 0, 0, 4, 0, 0, 0]);
    // Every packet shares the schema of the recording.
    assert!(Arc::ptr_eq(&packet.schema, &recording.schema));
    assert!(recording.packet(3).is_none());
    assert!(matches!(Recording::open(vec![1, 2, 3]), Err(TelemetryError::SourceOpen { .. })));
    let twice = file(&[var_entry(4, 0, 1, "Speed"), var_entry(4, 4, 1, "Speed")], "", &[]);
    assert!(matches!(Recording::open(twice), Err(TelemetryError::SourceOpen { .. })));
}

#[test]
fn test_replay_provider_reads_the_recording_in_order() {
    let mut provider = ReplayProvider::open(sample(), 250_000).unwrap();
    assert_eq!(provider.tick_rate(), 60);
    assert_eq!(provider.pacing.speed(), 100_000);
    assert_eq!(provider.session_yaml(7).as_deref(), Some("WeekendInfo:\n TrackName: bathurst\n"));
    let connection = Connection::to_replay(&provider);
    assert_eq!(connection.source_hz(), 60);
    let mut ticks = Vec::new();
    while !provider.at_end() {
        let packet = provider.next_frame().unwrap();
        assert!(Arc::ptr_eq(&packet.schema, &connection.schema));
        assert_eq!(packet.data.len(), connection.schema().frame_size);
        ticks.push(packet.tick);
    }
    assert_eq!(ticks, vec![0, 1, 2]);
    // End of stream, and it stays so.
    assert!(provider.next_frame().is_none());
    assert!(provider.next_frame().is_none());
    assert!(ReplayProvider::open(vec![0u8; 50], 1000).is_err());
    let silent = ReplayProvider::open(file(&[], "", &[]), 1000).unwrap();
    assert_eq!(silent.session_yaml(0), None);
    assert!(silent.at_end());
}

#[test]
fn test_plan_that_fits_decodes_every_frame_of_the_replay() {
    let mut provider = ReplayProvider::open(sample(), 1000).unwrap();
    let connection = Connection::to_replay(&provider);
    let critical = |name: &str, ty: &str| FieldStrategy::Critical {
        field_name: name.to_string(),
        field_ident: name.to_lowercase(),
        field_type: DeclaredType::new(ty.to_string()),
    };
    let layout = |fields: Vec<FieldStrategy>| FrameLayout {
        struct_name: "Car".to_string(),
        strategies: fields,
    };
    let good = layout(vec![critical("Speed", "f32"), critical("Gear", "i32")]);
    let plan = good.validate_schema(connection.schema()).unwrap();
    // Settled once, at subscription: the plan fits frames of eight bytes.
    assert!(good.fits(&plan, connection.schema().frame_size));
    assert!(!good.fits(&plan, 7));
    let mut sub = connection.subscribe(good, UpdateRate::Native).unwrap();
    let mut gears = Vec::new();
    while let Some(packet) = provider.next_frame() {
        assert!(sub.can_decode(&packet));
        let frame = sub.decode(&packet, 0).unwrap();
        gears.push(frame.frame[1]);
    }
    assert_eq!(
        gears,
        vec![
            FieldValue::Value(VarValue::Int(2)),
            FieldValue::Value(VarValue::Int(4)),
            FieldValue::Value(VarValue::Int(6))
        ]
    );
    // A required field declared as another type than the wire has does not fit.
    let bad = layout(vec![critical("Gear", "f32")]);
    let plan = bad.validate_schema(connection.schema()).unwrap();
    assert!(!bad.fits(&plan, 8));
    // A plan of another layout does not fit either.
    let other = layout(vec![critical("Speed", "f32"), critical("Speed", "f32")]);
    assert!(other.fits(&other.validate_schema(connection.schema()).unwrap(), 8));
    assert!(!other.fits(&plan, 8));
}
