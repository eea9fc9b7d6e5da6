//! Cameras, and the frame file that the capture service writes.
//!
//! The capture service writes each frame to `frame.bin`: a 48-byte header
//! (`BinHeaderV1`, a C struct in the machine's byte order) followed by the
//! RGBA payload. The reader polls the file, drops torn or repeated frames and
//! publishes new ones. The header is decoded in the byte order it is given,
//! which the reader takes from `native_byte_order`, as the writer and reader
//! share the machine.

pub mod json;
pub mod macos;
pub mod windows;

use vstd::prelude::*;
use vstd::bytes::{
    spec_u32_from_le_bytes, spec_u32_to_le_bytes, spec_u64_from_le_bytes, spec_u64_to_le_bytes,
    u32_from_le_bytes, u64_from_le_bytes,
};
use vstd::slice::slice_subrange;
use std::sync::Arc;

verus! {

/// A camera as the selector shows it.
#[derive(Debug, Clone)]
pub struct CameraInfo {
    pub index: u32,
    pub name: String,
    pub unique_id: String,
}

/// A camera as the contracts see it.
pub struct CameraModel {
    pub index: u32,
    pub name: Seq<char>,
    pub unique_id: Seq<char>,
}

impl View for CameraInfo {
    type V = CameraModel;

    open spec fn view(&self) -> CameraModel {
        CameraModel { index: self.index, name: self.name@, unique_id: self.unique_id@ }
    }
}

/// Why the cameras could not be listed.
#[derive(Debug, Clone, Copy, PartialEq, Eq, Structural)]
pub enum CameraListError {
    /// The lister's output is not JSON.
    MalformedJson,
    /// The JSON holds no array of cameras.
    NoCameraArray,
}

/// The views of a list of cameras.
pub open spec fn camera_views(cams: Seq<CameraInfo>) -> Seq<CameraModel> {
    cams.map_values(|c: CameraInfo| c@)
}

/// The one camera assumed when no list can be had: index 0, "Camera 0", no id.
pub open spec fn fallback_camera() -> CameraModel {
    CameraModel { index: 0, name: "Camera 0"@, unique_id: Seq::empty() }
}

/// The character of a decimal digit.
pub open spec fn digit_char(d: nat) -> char {
    ((48 + d) as u32) as char
}

/// The decimal digits of `n`, without leading zeros ("0" for zero).
pub open spec fn decimal(n: nat) -> Seq<char>
    decreases n,
{
    if n < 10 {
        seq![digit_char(n)]
    } else {
        decimal(n / 10).push(digit_char(n % 10))
    }
}

/// The name shown for a camera that reports none.
pub open spec fn default_camera_name(idx: nat) -> Seq<char> {
    "Camera "@ + decimal(idx)
}

fn digit_str(d: usize) -> (r: &'static str)
    requires
        d < 10,
    ensures
        r@ == seq![digit_char(d as nat)],
{
    proof {
        reveal_strlit("0");
        reveal_strlit("1");
        reveal_strlit("2");
        reveal_strlit("3");
        reveal_strlit("4");
        reveal_strlit("5");
        reveal_strlit("6");
        reveal_strlit("7");
        reveal_strlit("8");
        reveal_strlit("9");
    }
    match d {
        0 => "0",
        1 => "1",
        2 => "2",
        3 => "3",
        4 => "4",
        5 => "5",
        6 => "6",
        7 => "7",
        8 => "8",
        _ => "9",
    }
}

fn push_decimal(s: &mut String, n: usize)
    ensures
        final(s)@ == old(s)@ + decimal(n as nat),
    decreases n,
{
    if n >= 10 {
        push_decimal(s, n / 10);
    }
    s.append(digit_str(n % 10));
    assert(s@ =~= old(s)@ + decimal(n as nat));
}

/// "Camera {idx}", the name given to a camera that reports none.
pub fn camera_label(idx: usize) -> (r: String)
    ensures
        r@ == default_camera_name(idx as nat),
{
    let mut s = String::from_str("Camera ");
    push_decimal(&mut s, idx);
    s
}

/// The list of one camera used when cameras cannot be listed.
pub fn fallback_cameras() -> (r: Vec<CameraInfo>)
    ensures
        camera_views(r@) == seq![fallback_camera()],
{
    let name = camera_label(0);
    proof {
        reveal_strlit("Camera ");
        reveal_strlit("Camera 0");
    }
    assert(digit_char(0) == '0');
    assert(name@ =~= "Camera 0"@);
    let mut v = Vec::new();
    v.push(CameraInfo { index: 0, name, unique_id: String::new() });
    assert(camera_views(v@) =~= seq![fallback_camera()]);
    v
}


/// The camera list on platforms without a lister: the single fallback camera.
pub fn list_cameras() -> (r: Result<Vec<CameraInfo>, CameraListError>)
    ensures
        r matches Ok(v) && camera_views(v@) == seq![fallback_camera()],
{
    Ok(fallback_cameras())
}

// ── The frame file ──

pub const BIN_MAGIC: u32 = 0x564D_4442;
pub const BIN_VERSION_V1: u32 = 1;
pub const BIN_HEADER_V1_SIZE: usize = 48;

/// The 48-byte header in front of each frame, fields in the machine's byte
/// order at the offsets of a C struct: magic 0, version 4, frame_id 8, wall_ns 16,
/// source_kind 24, payload_format 28, payload_count 32, width 36, height 40,
/// reserved 44.
#[derive(Debug, Clone, Copy, PartialEq, Eq, Structural)]
pub struct BinHeaderV1 {
    pub magic: u32,
    pub version: u32,
    pub frame_id: u64,
    pub wall_ns: u64,
    pub source_kind: u32,
    pub payload_format: u32,
    pub payload_count: u32,
    pub width: u32,
    pub height: u32,
    pub reserved: u32,
}

/// How the writer marks a frame as whole, so that a reader can reject a frame
/// it read while it was being written.
#[derive(Debug, Clone, Copy, PartialEq, Eq, Structural)]
pub enum TornReadGuard {
    /// The writer rewrites the file in place and stamps `reserved` with the low
    /// 32 bits of `frame_id` last (the macOS service).
    FrameIdEcho,
    /// The writer replaces the file whole and leaves `reserved` at 0.
    ZeroReserved,
}

/// The order in which the bytes of a multi-byte integer are stored.
#[derive(Debug, Clone, Copy, PartialEq, Eq, Structural)]
pub enum ByteOrder {
    /// Least significant byte first.
    Little,
    /// Most significant byte first.
    Big,
}

/// The bytes of a stored field, least significant first.
pub open spec fn in_le_order(s: Seq<u8>, order: ByteOrder) -> Seq<u8> {
    match order {
        ByteOrder::Little => s,
        ByteOrder::Big => s.reverse(),
    }
}

/// The `u32` stored in `s` in the given order.
pub open spec fn u32_from_bytes(s: Seq<u8>, order: ByteOrder) -> u32 {
    spec_u32_from_le_bytes(in_le_order(s, order))
}

/// The `u64` stored in `s` in the given order.
pub open spec fn u64_from_bytes(s: Seq<u8>, order: ByteOrder) -> u64 {
    spec_u64_from_le_bytes(in_le_order(s, order))
}

/// The four bytes that store `x` in the given order.
pub open spec fn u32_to_bytes(x: u32, order: ByteOrder) -> Seq<u8> {
    in_le_order(spec_u32_to_le_bytes(x), order)
}

/// The eight bytes that store `x` in the given order.
pub open spec fn u64_to_bytes(x: u64, order: ByteOrder) -> Seq<u8> {
    in_le_order(spec_u64_to_le_bytes(x), order)
}

pub open spec fn u32_at(b: Seq<u8>, off: int, order: ByteOrder) -> u32 {
    u32_from_bytes(b.subrange(off, off + 4), order)
}

pub open spec fn u64_at(b: Seq<u8>, off: int, order: ByteOrder) -> u64 {
    u64_from_bytes(b.subrange(off, off + 8), order)
}

/// The header that the first 48 bytes encode, fields stored in `order`.
pub open spec fn decode_header(b: Seq<u8>, order: ByteOrder) -> BinHeaderV1 {
    BinHeaderV1 {
        magic: u32_at(b, 0, order),
        version: u32_at(b, 4, order),
        frame_id: u64_at(b, 8, order),
        wall_ns: u64_at(b, 16, order),
        source_kind: u32_at(b, 24, order),
        payload_format: u32_at(b, 28, order),
        payload_count: u32_at(b, 32, order),
        width: u32_at(b, 36, order),
        height: u32_at(b, 40, order),
        reserved: u32_at(b, 44, order),
    }
}

/// `u16::from_ne_bytes`: the two bytes read in the machine's byte order,
/// which is either little-endian or big-endian. Which one is left unsaid: it
/// depends on the machine.
#[verifier::external_body]
fn u16_from_ne_bytes(first: u8, second: u8) -> (r: u16)
    ensures
        r == first + 256 * second || r == 256 * first + second,
{
    u16::from_ne_bytes([first, second])
}

/// The byte order of the machine the program runs on: little-endian when the
/// bytes 1, 0 read as the number 1. Which order that is depends on the
/// machine, so nothing more is promised of the result.
pub fn native_byte_order() -> (r: ByteOrder) {
    if u16_from_ne_bytes(1, 0) == 1 {
        ByteOrder::Little
    } else {
        ByteOrder::Big
    }
}

/// A header is accepted when it carries the magic, version 1, and the
/// whole-frame mark of the writer.
pub open spec fn header_accepted(h: BinHeaderV1, guard: TornReadGuard) -> bool {
    &&& h.magic == BIN_MAGIC
    &&& h.version == BIN_VERSION_V1
    &&& match guard {
        TornReadGuard::FrameIdEcho => h.reserved == h.frame_id as u32,
        TornReadGuard::ZeroReserved => h.reserved == 0,
    }
}

/// The header that `read_bin_header_v1` finds in `b`, if any.
pub open spec fn parsed_header(b: Seq<u8>, guard: TornReadGuard, order: ByteOrder) -> Option<BinHeaderV1> {
    if b.len() < BIN_HEADER_V1_SIZE {
        None
    } else if header_accepted(decode_header(b, order), guard) {
        Some(decode_header(b, order))
    } else {
        None
    }
}

fn read_u32_at(bytes: &[u8], off: usize, order: ByteOrder) -> (r: u32)
    requires
        off + 4 <= bytes@.len(),
    ensures
        r == u32_at(bytes@, off as int, order),
{
    let _len = bytes.len();  // brings in the bound of the slice's length
    match order {
        ByteOrder::Little => u32_from_le_bytes(slice_subrange(bytes, off, off + 4)),
        ByteOrder::Big => {
            let v: Vec<u8> = vec![bytes[off + 3], bytes[off + 2], bytes[off + 1], bytes[off]];
            assert(v@ =~= bytes@.subrange(off as int, off + 4).reverse());
            u32_from_le_bytes(v.as_slice())
        },
    }
}

fn read_u64_at(bytes: &[u8], off: usize, order: ByteOrder) -> (r: u64)
    requires
        off + 8 <= bytes@.len(),
    ensures
        r == u64_at(bytes@, off as int, order),
{
    let _len = bytes.len();  // brings in the bound of the slice's length
    match order {
        ByteOrder::Little => u64_from_le_bytes(slice_subrange(bytes, off, off + 8)),
        ByteOrder::Big => {
            let v: Vec<u8> = vec![
                bytes[off + 7],
                bytes[off + 6],
                bytes[off + 5],
                bytes[off + 4],
                bytes[off + 3],
                bytes[off + 2],
                bytes[off + 1],
                bytes[off],
            ];
            assert(v@ =~= bytes@.subrange(off as int, off + 8).reverse());
            u64_from_le_bytes(v.as_slice())
        },
    }
}

/// Reads the frame header at the start of `bytes`, its fields stored in
/// `order`: `None` when there are fewer than 48 bytes, the magic or version
/// is wrong, or the frame is torn.
pub fn read_bin_header_v1(bytes: &[u8], guard: TornReadGuard, order: ByteOrder) -> (r: Option<BinHeaderV1>)
    ensures
        r == parsed_header(bytes@, guard, order),
{
    if bytes.len() < BIN_HEADER_V1_SIZE {
        return None;
    }
    let head = BinHeaderV1 {
        magic: read_u32_at(bytes, 0, order),
        version: read_u32_at(bytes, 4, order),
        frame_id: read_u64_at(bytes, 8, order),
        wall_ns: read_u64_at(bytes, 16, order),
        source_kind: read_u32_at(bytes, 24, order),
        payload_format: read_u32_at(bytes, 28, order),
        payload_count: read_u32_at(bytes, 32, order),
        width: read_u32_at(bytes, 36, order),
        height: read_u32_at(bytes, 40, order),
        reserved: read_u32_at(bytes, 44, order),
    };
    if head.magic != BIN_MAGIC || head.version != BIN_VERSION_V1 {
        return None;
    }
    let whole = match guard {
        TornReadGuard::FrameIdEcho => head.reserved == head.frame_id as u32,
        TornReadGuard::ZeroReserved => head.reserved == 0,
    };
    if !whole {
        return None;
    }
    Some(head)
}

/// A new frame taken from the frame file: its header and its RGBA payload.
pub struct FrameUpdate {
    pub header: BinHeaderV1,
    pub rgba: Vec<u8>,
}

/// Whether `b` holds a new, whole frame for a reader that last took frame
/// `last_id`: an accepted header, another frame id, and the full payload.
pub open spec fn holds_new_frame(b: Seq<u8>, last_id: u64, guard: TornReadGuard, order: ByteOrder) -> bool {
    match parsed_header(b, guard, order) {
        Some(h) => h.frame_id != last_id && b.len() >= BIN_HEADER_V1_SIZE + h.payload_count,
        None => false,
    }
}

/// One poll of the frame reader: the frame in `bytes` when it is new and whole.
/// The payload is the `payload_count` bytes right after the header.
pub fn next_frame(bytes: &[u8], last_id: u64, guard: TornReadGuard, order: ByteOrder) -> (r: Option<FrameUpdate>)
    ensures
        r is Some == holds_new_frame(bytes@, last_id, guard, order),
        r matches Some(f) ==> {
            &&& Some(f.header) == parsed_header(bytes@, guard, order)
            &&& f.rgba@ == bytes@.subrange(
                BIN_HEADER_V1_SIZE as int,
                BIN_HEADER_V1_SIZE + f.header.payload_count,
            )
        },
{
    let head = match read_bin_header_v1(bytes, guard, order) {
        Some(h) => h,
        None => return None,
    };
    if head.frame_id == last_id {
        return None;
    }
    let payload_count = head.payload_count as usize;
    if bytes.len() - BIN_HEADER_V1_SIZE < payload_count {
        return None;
    }
    let payload = slice_subrange(bytes, BIN_HEADER_V1_SIZE, BIN_HEADER_V1_SIZE + payload_count);
    let rgba = vstd::slice::slice_to_vec(payload);
    Some(FrameUpdate { header: head, rgba })
}

/// The 48 bytes a writer puts in front of a frame for header `h`, fields
/// stored in `order`.
pub open spec fn encode_header(h: BinHeaderV1, order: ByteOrder) -> Seq<u8> {
    u32_to_bytes(h.magic, order) + u32_to_bytes(h.version, order) + u64_to_bytes(h.frame_id, order)
        + u64_to_bytes(h.wall_ns, order) + u32_to_bytes(h.source_kind, order) + u32_to_bytes(
        h.payload_format,
        order,
    ) + u32_to_bytes(h.payload_count, order) + u32_to_bytes(h.width, order) + u32_to_bytes(h.height, order)
        + u32_to_bytes(h.reserved, order)
}

proof fn lemma_field_round_trip(order: ByteOrder)
    ensures
        forall|x: u32| #[trigger] u32_to_bytes(x, order).len() == 4 && u32_from_bytes(u32_to_bytes(x, order), order) == x,
        forall|x: u64| #[trigger] u64_to_bytes(x, order).len() == 8 && u64_from_bytes(u64_to_bytes(x, order), order) == x,
{
    vstd::bytes::lemma_auto_spec_u32_to_from_le_bytes();
    vstd::bytes::lemma_auto_spec_u64_to_from_le_bytes();
    assert forall|x: u32| #[trigger] u32_to_bytes(x, order).len() == 4 && u32_from_bytes(u32_to_bytes(x, order), order) == x by {
        assert(spec_u32_to_le_bytes(x).reverse().reverse() =~= spec_u32_to_le_bytes(x));
    }
    assert forall|x: u64| #[trigger] u64_to_bytes(x, order).len() == 8 && u64_from_bytes(u64_to_bytes(x, order), order) == x by {
        assert(spec_u64_to_le_bytes(x).reverse().reverse() =~= spec_u64_to_le_bytes(x));
    }
}

/// What a writer writes is what the reader reads, in either byte order: the
/// header encoded in front of any payload decodes to itself, and it is
/// accepted exactly when it carries the magic, version 1 and the writer's
/// whole-frame mark.
pub proof fn lemma_header_round_trip(h: BinHeaderV1, payload: Seq<u8>, guard: TornReadGuard, order: ByteOrder)
    ensures
        encode_header(h, order).len() == BIN_HEADER_V1_SIZE,
        decode_header(encode_header(h, order) + payload, order) == h,
        parsed_header(encode_header(h, order) + payload, guard, order) == if header_accepted(h, guard) {
            Some(h)
        } else {
            None
        },
{
    lemma_field_round_trip(order);
    let b = encode_header(h, order) + payload;
    assert(b.subrange(0, 4) =~= u32_to_bytes(h.magic, order));
    assert(b.subrange(4, 8) =~= u32_to_bytes(h.version, order));
    assert(b.subrange(8, 16) =~= u64_to_bytes(h.frame_id, order));
    assert(b.subrange(16, 24) =~= u64_to_bytes(h.wall_ns, order));
    assert(b.subrange(24, 28) =~= u32_to_bytes(h.source_kind, order));
    assert(b.subrange(28, 32) =~= u32_to_bytes(h.payload_format, order));
    assert(b.subrange(32, 36) =~= u32_to_bytes(h.payload_count, order));
    assert(b.subrange(36, 40) =~= u32_to_bytes(h.width, order));
    assert(b.subrange(40, 44) =~= u32_to_bytes(h.height, order));
    assert(b.subrange(44, 48) =~= u32_to_bytes(h.reserved, order));
}

/// A frame is taken once: after the reader records the id of the frame it
/// took, the same file holds nothing new for it.
pub proof fn lemma_frame_taken_once(b: Seq<u8>, last_id: u64, guard: TornReadGuard, order: ByteOrder)
    requires
        holds_new_frame(b, last_id, guard, order),
    ensures
        !holds_new_frame(b, parsed_header(b, guard, order).unwrap().frame_id, guard, order),
{
}

/// Frames are told apart by their id alone: a whole frame whose accepted
/// header has an id other than the one last taken is new, whether that id is
/// smaller or larger (a restarted service counts from the start again), and
/// it is taken with the header it carries. A frame with the last id is never
/// taken again.
pub proof fn lemma_other_id_is_new(b: Seq<u8>, last_id: u64, guard: TornReadGuard, order: ByteOrder)
    requires
        b.len() >= BIN_HEADER_V1_SIZE,
        header_accepted(decode_header(b, order), guard),
        b.len() >= BIN_HEADER_V1_SIZE + decode_header(b, order).payload_count,
    ensures
        parsed_header(b, guard, order) == Some(decode_header(b, order)),
        decode_header(b, order).frame_id != last_id ==> holds_new_frame(b, last_id, guard, order),
        decode_header(b, order).frame_id == last_id ==> !holds_new_frame(b, last_id, guard, order),
{
}

/// A torn frame is never taken: with the in-place writer, a header whose
/// `reserved` differs from the low 32 bits of its frame id is rejected.
pub proof fn lemma_torn_frame_rejected(b: Seq<u8>, last_id: u64, order: ByteOrder)
    requires
        b.len() >= BIN_HEADER_V1_SIZE,
        decode_header(b, order).reserved != decode_header(b, order).frame_id as u32,
    ensures
        parsed_header(b, TornReadGuard::FrameIdEcho, order) is None,
        !holds_new_frame(b, last_id, TornReadGuard::FrameIdEcho, order),
{
}

/// The latest frame, shared between the thread that produces frames and the
/// window that shows them.
pub struct FrameSlot {
    pub rgba: Option<Arc<Vec<u8>>>,
    pub width: u32,
    pub height: u32,
    pub frame_id: u64,
}

impl Default for FrameSlot {
    fn default() -> (r: Self)
        ensures
            r.rgba is None,
            r.width == 0,
            r.height == 0,
            r.frame_id == 0,
    {
        FrameSlot { rgba: None, width: 0, height: 0, frame_id: 0 }
    }
}

impl FrameSlot {
    /// Puts a new frame in the slot.
    pub fn publish(&mut self, rgba: Vec<u8>, width: u32, height: u32, frame_id: u64)
        ensures
            final(self).rgba matches Some(p) && *p == rgba,
            final(self).width == width,
            final(self).height == height,
            final(self).frame_id == frame_id,
    {
        self.rgba = Some(Arc::new(rgba));
        self.width = width;
        self.height = height;
        self.frame_id = frame_id;
    }

    /// The number of RGBA bytes to upload to the texture, when the slot holds
    /// a frame other than `last_uploaded` with a non-empty size and enough bytes.
    pub fn upload_len(&self, last_uploaded: u64) -> (r: Option<usize>)
        ensures
            r is Some == (self.frame_id != last_uploaded && self.rgba is Some && self.width > 0
                && self.height > 0 && self.width * self.height * 4 <= self.rgba.unwrap()@.len()),
            r matches Some(n) ==> n == self.width * self.height * 4,
    {
        if self.frame_id == last_uploaded {
            return None;
        }
        let rgba = match &self.rgba {
            Some(r) => r,
            None => return None,
        };
        let len = rgba.len();
        let w = self.width as usize;
        let h = self.height as usize;
        if w == 0 || h == 0 {
            return None;
        }
        let n = match w.checked_mul(h) {
            Some(wh) => match wh.checked_mul(4) {
                Some(n) => n,
                None => return None,
            },
            None => {
                assert(w * h * 4 >= w * h) by (nonlinear_arith)
                    requires
                        w * h >= 0,
                ;
                return None;
            },
        };
        if len < n {
            return None;
        }
        Some(n)
    }
}

} // verus!
