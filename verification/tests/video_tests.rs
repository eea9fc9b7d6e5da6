use mado::video::{
    decode_gate, infer_channel_layout, pack_rgba_rows, pair_interleaved, route_packet, AudioRing, ChannelLayoutChoice,
    DecodeGate, PacketRoute, AUDIO_BACKLOG_LIMIT, AUDIO_RING_CAPACITY, AUDIO_SR,
};

#[test]
fn ring_limits() {
    assert_eq!(AUDIO_RING_CAPACITY, (AUDIO_SR as usize) / 2);
    assert_eq!(AUDIO_BACKLOG_LIMIT, (AUDIO_SR as usize) * 3 / 10);
}

#[test]
fn ring_drops_beyond_capacity_and_is_fifo() {
    let mut r: AudioRing<(i32, i32)> = AudioRing::new(3);
    r.push(&[(1, 1), (2, 2)]);
    r.push(&[(3, 3), (4, 4)]);
    assert_eq!(r.len(), 3);
    assert_eq!(r.pop_front(), Some((1, 1)));
    r.push(&[(5, 5), (6, 6)]);
    assert_eq!(r.len(), 3);
    assert_eq!(r.pop_front(), Some((2, 2)));
    assert_eq!(r.pop_front(), Some((3, 3)));
    assert_eq!(r.pop_front(), Some((5, 5)));
    assert_eq!(r.pop_front(), None);
    assert_eq!(r.len(), 0);
}

#[test]
fn channel_layouts() {
    assert_eq!(infer_channel_layout(0), ChannelLayoutChoice::Stereo);
    assert_eq!(infer_channel_layout(1), ChannelLayoutChoice::Mono);
    assert_eq!(infer_channel_layout(2), ChannelLayoutChoice::Stereo);
    assert_eq!(infer_channel_layout(6), ChannelLayoutChoice::DefaultFor(6));
}

#[test]
fn gate_priorities() {
    assert_eq!(decode_gate(true, true, 99_999), DecodeGate::Stop);
    assert_eq!(decode_gate(false, true, 99_999), DecodeGate::WaitWhilePaused);
    assert_eq!(decode_gate(false, false, 14_401), DecodeGate::Throttle);
    assert_eq!(decode_gate(false, false, 14_400), DecodeGate::ReadPacket);
}

#[test]
fn packet_routes() {
    assert_eq!(route_packet(None, 0, Some(1)), PacketRoute::EndOfFile);
    assert_eq!(route_packet(Some(0), 0, Some(1)), PacketRoute::Video);
    assert_eq!(route_packet(Some(1), 0, Some(1)), PacketRoute::Audio);
    assert_eq!(route_packet(Some(2), 0, Some(1)), PacketRoute::Skip);
    assert_eq!(route_packet(Some(1), 0, None), PacketRoute::Skip);
}

#[test]
fn pack_rows_with_padding() {
    // width 1 pixel = 4 bytes per row, stride 6, 3 rows
    let data: Vec<u8> = (0..18).collect();
    let out = pack_rgba_rows(&data, 6, 1, 3);
    assert_eq!(out, vec![0, 1, 2, 3, 6, 7, 8, 9, 12, 13, 14, 15]);
}

#[test]
fn pack_rows_contiguous() {
    let data: Vec<u8> = (0..20).collect();
    let out = pack_rgba_rows(&data, 8, 2, 2);
    assert_eq!(out, (0..16).collect::<Vec<u8>>());
    assert!(pack_rgba_rows(&data, 8, 2, 0).is_empty());
}

#[test]
fn pair_samples() {
    let s = [1.0f32, -1.0, 0.5, -0.5, 9.0];
    let p = pair_interleaved(&s, 2);
    assert_eq!(p, vec![(1.0, -1.0), (0.5, -0.5)]);
    assert!(pair_interleaved(&s, 0).is_empty());
}
