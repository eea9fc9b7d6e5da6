use mado::camera::json::{find_member, flag_member, text_member, unsigned_member, JsonMember};
use mado::camera::{
    camera_label, fallback_cameras, list_cameras, native_byte_order, next_frame, read_bin_header_v1, BinHeaderV1,
    ByteOrder, CameraListError,
    FrameSlot, TornReadGuard, BIN_HEADER_V1_SIZE, BIN_MAGIC,
};

fn header_bytes(h: &BinHeaderV1) -> Vec<u8> {
    let mut b = Vec::new();
    b.extend_from_slice(&h.magic.to_le_bytes());
    b.extend_from_slice(&h.version.to_le_bytes());
    b.extend_from_slice(&h.frame_id.to_le_bytes());
    b.extend_from_slice(&h.wall_ns.to_le_bytes());
    b.extend_from_slice(&h.source_kind.to_le_bytes());
    b.extend_from_slice(&h.payload_format.to_le_bytes());
    b.extend_from_slice(&h.payload_count.to_le_bytes());
    b.extend_from_slice(&h.width.to_le_bytes());
    b.extend_from_slice(&h.height.to_le_bytes());
    b.extend_from_slice(&h.reserved.to_le_bytes());
    b
}

fn header_bytes_be(h: &BinHeaderV1) -> Vec<u8> {
    let mut b = Vec::new();
    b.extend_from_slice(&h.magic.to_be_bytes());
    b.extend_from_slice(&h.version.to_be_bytes());
    b.extend_from_slice(&h.frame_id.to_be_bytes());
    b.extend_from_slice(&h.wall_ns.to_be_bytes());
    b.extend_from_slice(&h.source_kind.to_be_bytes());
    b.extend_from_slice(&h.payload_format.to_be_bytes());
    b.extend_from_slice(&h.payload_count.to_be_bytes());
    b.extend_from_slice(&h.width.to_be_bytes());
    b.extend_from_slice(&h.height.to_be_bytes());
    b.extend_from_slice(&h.reserved.to_be_bytes());
    b
}

fn sample(frame_id: u64, reserved: u32) -> BinHeaderV1 {
    BinHeaderV1 {
        magic: BIN_MAGIC,
        version: 1,
        frame_id,
        wall_ns: 123_456_789,
        source_kind: 2,
        payload_format: 3,
        payload_count: 8,
        width: 2,
        height: 1,
        reserved,
    }
}

#[test]
fn header_is_48_bytes() {
    assert_eq!(header_bytes(&sample(1, 1)).len(), BIN_HEADER_V1_SIZE);
}

#[test]
fn header_round_trip_both_guards() {
    let h = sample(0x1_0000_0007, 7);
    let got = read_bin_header_v1(&header_bytes(&h), TornReadGuard::FrameIdEcho, ByteOrder::Little);
    assert_eq!(got, Some(h));
    assert_eq!(read_bin_header_v1(&header_bytes(&h), TornReadGuard::ZeroReserved, ByteOrder::Little), None);
    let z = sample(9, 0);
    assert_eq!(read_bin_header_v1(&header_bytes(&z), TornReadGuard::ZeroReserved, ByteOrder::Little), Some(z));
    assert_eq!(read_bin_header_v1(&header_bytes(&z), TornReadGuard::FrameIdEcho, ByteOrder::Little), None);
}

#[test]
fn header_known_bytes() {
    let mut b = vec![0u8; 48];
    b[0..4].copy_from_slice(&[0x42, 0x44, 0x4D, 0x56]);
    b[4] = 1;
    b[8] = 5;
    b[36] = 0x80;
    b[37] = 0x02;
    b[40] = 0xE0;
    b[41] = 0x01;
    let h = read_bin_header_v1(&b, TornReadGuard::ZeroReserved, ByteOrder::Little).unwrap();
    assert_eq!(h.magic, 0x564D_4442);
    assert_eq!(h.frame_id, 5);
    assert_eq!(h.width, 640);
    assert_eq!(h.height, 480);
}

#[test]
fn header_rejects_short_magic_version() {
    let h = sample(3, 3);
    let b = header_bytes(&h);
    assert_eq!(read_bin_header_v1(&b[..47], TornReadGuard::FrameIdEcho, ByteOrder::Little), None);
    let mut bad_magic = b.clone();
    bad_magic[0] ^= 1;
    assert_eq!(read_bin_header_v1(&bad_magic, TornReadGuard::FrameIdEcho, ByteOrder::Little), None);
    let mut bad_version = b.clone();
    bad_version[4] = 2;
    assert_eq!(read_bin_header_v1(&bad_version, TornReadGuard::FrameIdEcho, ByteOrder::Little), None);
}

#[test]
fn torn_frame_is_rejected() {
    let h = sample(10, 9);
    assert_eq!(read_bin_header_v1(&header_bytes(&h), TornReadGuard::FrameIdEcho, ByteOrder::Little), None);
}

#[test]
fn next_frame_takes_payload_once() {
    let h = sample(4, 4);
    let mut b = header_bytes(&h);
    b.extend_from_slice(&[1, 2, 3, 4, 5, 6, 7, 8, 99]);
    let f = next_frame(&b, 0, TornReadGuard::FrameIdEcho, ByteOrder::Little).unwrap();
    assert_eq!(f.header, h);
    assert_eq!(f.rgba, vec![1, 2, 3, 4, 5, 6, 7, 8]);
    assert!(next_frame(&b, 4, TornReadGuard::FrameIdEcho, ByteOrder::Little).is_none());
}

#[test]
fn next_frame_needs_full_payload() {
    let h = sample(4, 4);
    let mut b = header_bytes(&h);
    b.extend_from_slice(&[1, 2, 3]);
    assert!(next_frame(&b, 0, TornReadGuard::FrameIdEcho, ByteOrder::Little).is_none());
}

#[test]
fn frame_slot_publish_and_upload_len() {
    let mut slot = FrameSlot::default();
    assert_eq!(slot.upload_len(0), None);
    slot.publish(vec![0u8; 16], 2, 2, 5);
    assert_eq!(slot.upload_len(0), Some(16));
    assert_eq!(slot.upload_len(5), None);
    slot.publish(vec![0u8; 15], 2, 2, 6);
    assert_eq!(slot.upload_len(0), None);
    slot.publish(vec![0u8; 15], 0, 2, 7);
    assert_eq!(slot.upload_len(0), None);
    slot.publish(vec![], u32::MAX, u32::MAX, 8);
    assert_eq!(slot.upload_len(0), None);
}

#[test]
fn camera_labels() {
    assert_eq!(camera_label(0), "Camera 0");
    assert_eq!(camera_label(7), "Camera 7");
    assert_eq!(camera_label(10), "Camera 10");
    assert_eq!(camera_label(4096), "Camera 4096");
}

#[test]
fn fallback_list() {
    let v = fallback_cameras();
    assert_eq!(v.len(), 1);
    assert_eq!(v[0].index, 0);
    assert_eq!(v[0].name, "Camera 0");
    assert_eq!(v[0].unique_id, "");
    let w = list_cameras().unwrap();
    assert_eq!(w.len(), 1);
    assert_eq!(w[0].name, "Camera 0");
}

#[test]
fn profiler_listing() {
    let json = br#"{"SPCameraDataType":[{"_name":"FaceTime HD Camera","spcamera_unique-id":"ABC"},{"spcamera_unique-id":"DEF"},{"_name":"USB"}]}"#;
    let v = mado::camera::macos::list_cameras(json).unwrap();
    assert_eq!(v.len(), 3);
    assert_eq!((v[0].index, v[0].name.as_str(), v[0].unique_id.as_str()), (0, "FaceTime HD Camera", "ABC"));
    assert_eq!((v[1].index, v[1].name.as_str(), v[1].unique_id.as_str()), (1, "Camera 1", "DEF"));
    assert_eq!((v[2].index, v[2].name.as_str(), v[2].unique_id.as_str()), (2, "USB", ""));
}

#[test]
fn profiler_empty_and_errors() {
    let v = mado::camera::macos::list_cameras(br#"{"SPCameraDataType":[]}"#).unwrap();
    assert_eq!(v.len(), 1);
    assert_eq!(v[0].name, "Camera 0");
    assert_eq!(
        mado::camera::macos::list_cameras(b"not json").unwrap_err(),
        CameraListError::MalformedJson
    );
    assert_eq!(
        mado::camera::macos::list_cameras(br#"{"Other":[]}"#).unwrap_err(),
        CameraListError::NoCameraArray
    );
}

#[test]
fn probe_listing() {
    let out = b"  [{\"index\":0,\"name\":\"ASUS FHD webcam\",\"opened\":true},{\"index\":1,\"opened\":false},{\"index\":2,\"name\":\"\",\"opened\":true},{\"name\":\"x\",\"opened\":true},{\"index\":3,\"opened\":true}]\n";
    let v = mado::camera::windows::list_cameras(Some(&out[..])).unwrap();
    let got: Vec<(u32, String)> = v.iter().map(|c| (c.index, c.name.clone())).collect();
    assert_eq!(
        got,
        vec![
            (0, "ASUS FHD webcam".to_string()),
            (2, "Camera 2".to_string()),
            (3, "Camera 3".to_string())
        ]
    );
    assert!(v.iter().all(|c| c.unique_id.is_empty()));
}

#[test]
fn probe_fallbacks() {
    for out in [None, Some(&b"   \n"[..]), Some(&b"\xff\xfe"[..]), Some(&b"{}"[..]), Some(&b"[{\"index\":1,\"opened\":false}]"[..])] {
        let v = mado::camera::windows::list_cameras(out).unwrap();
        assert_eq!(v.len(), 1);
        assert_eq!(v[0].name, "Camera 0");
        assert_eq!(v[0].index, 0);
    }
}

#[test]
fn probe_index_is_truncated_to_u32() {
    let out = b"[{\"index\":4294967297,\"opened\":true}]";
    let v = mado::camera::windows::list_cameras(Some(&out[..])).unwrap();
    assert_eq!(v[0].index, 1);
    assert_eq!(v[0].name, "Camera 1");
}

#[test]
fn probe_output_is_trimmed_of_unicode_space() {
    let out = "\u{a0}[{\"index\":5,\"name\":\"Cam\",\"opened\":true}]\u{3000}\n";
    let v = mado::camera::windows::list_cameras(Some(out.as_bytes())).unwrap();
    assert_eq!(v.len(), 1);
    assert_eq!(v[0].index, 5);
    assert_eq!(v[0].name, "Cam");
}

#[test]
fn json_members_are_found_by_key() {
    let ms = vec![
        JsonMember { key: "index".to_string(), unsigned: Some(3), flag: None, text: None },
        JsonMember { key: "name".to_string(), unsigned: None, flag: None, text: Some("Cam".to_string()) },
        JsonMember { key: "opened".to_string(), unsigned: None, flag: Some(true), text: None },
    ];
    assert_eq!(find_member(&ms, "name"), Some(1));
    assert_eq!(find_member(&ms, "Name"), None);
    assert_eq!(unsigned_member(&ms, "index"), Some(3));
    assert_eq!(unsigned_member(&ms, "name"), None);
    assert_eq!(flag_member(&ms, "opened"), Some(true));
    assert_eq!(text_member(&ms, "name"), Some("Cam".to_string()));
    assert_eq!(text_member(&ms, "missing"), None);
}

#[test]
fn profiler_shapes_that_are_not_a_camera_array() {
    assert_eq!(
        mado::camera::macos::list_cameras(br#"[{"SPCameraDataType":[]}]"#).unwrap_err(),
        CameraListError::NoCameraArray
    );
    assert_eq!(
        mado::camera::macos::list_cameras(br#"{"SPCameraDataType":{"_name":"x"}}"#).unwrap_err(),
        CameraListError::NoCameraArray
    );
    let v = mado::camera::macos::list_cameras(br#"{"SPCameraDataType":[7,{"_name":5,"spcamera_unique-id":"U"}]}"#)
        .unwrap();
    assert_eq!((v[0].index, v[0].name.as_str(), v[0].unique_id.as_str()), (0, "Camera 0", ""));
    assert_eq!((v[1].index, v[1].name.as_str(), v[1].unique_id.as_str()), (1, "Camera 1", "U"));
}

#[test]
fn probe_elements_that_are_not_objects_are_skipped() {
    let out = b"[3, \"x\", {\"index\":2,\"opened\":true,\"name\":\"B\"}, {\"index\":-1,\"opened\":true}]";
    let v = mado::camera::windows::list_cameras(Some(&out[..])).unwrap();
    assert_eq!(v.len(), 1);
    assert_eq!((v[0].index, v[0].name.as_str()), (2, "B"));
}

#[test]
fn header_in_big_endian_order() {
    let h = sample(0x0102_0304_0506_0708, 0x0506_0708);
    assert_eq!(read_bin_header_v1(&header_bytes_be(&h), TornReadGuard::FrameIdEcho, ByteOrder::Big), Some(h));
    assert_eq!(read_bin_header_v1(&header_bytes(&h), TornReadGuard::FrameIdEcho, ByteOrder::Big), None);
    assert_eq!(read_bin_header_v1(&header_bytes_be(&h), TornReadGuard::FrameIdEcho, ByteOrder::Little), None);
    let mut b = header_bytes_be(&h);
    b.extend_from_slice(&[9, 8, 7, 6, 5, 4, 3, 2]);
    let f = next_frame(&b, 0, TornReadGuard::FrameIdEcho, ByteOrder::Big).unwrap();
    assert_eq!(f.header.frame_id, 0x0102_0304_0506_0708);
    assert_eq!(f.rgba, vec![9, 8, 7, 6, 5, 4, 3, 2]);
}

#[test]
fn native_order_reads_the_machine_order() {
    let expected = if u16::from_ne_bytes([1, 0]) == 1 { ByteOrder::Little } else { ByteOrder::Big };
    assert_eq!(native_byte_order(), expected);
    let h = sample(4, 4);
    let native = if expected == ByteOrder::Little { header_bytes(&h) } else { header_bytes_be(&h) };
    assert_eq!(read_bin_header_v1(&native, TornReadGuard::FrameIdEcho, native_byte_order()), Some(h));
}

#[test]
fn trim_drops_unicode_white_space_at_both_ends() {
    assert_eq!(mado::camera::windows::trim("\u{a0} a b \u{3000}\n"), "a b");
    assert_eq!(mado::camera::windows::trim(" \t "), "");
    assert_eq!(mado::camera::windows::trim(""), "");
    assert_eq!(mado::camera::windows::trim("x"), "x");
}
