//! Listing the cameras on macOS from the JSON report of
//! `system_profiler SPCameraDataType -json`.

use vstd::prelude::*;
use crate::camera::json::{element_view, elements_view, text_at, text_member, JsonMember};
use crate::camera::{
    camera_label, camera_views, default_camera_name, fallback_camera, fallback_cameras,
    CameraInfo, CameraListError, CameraModel,
};

verus! {

/// One entry of the `SPCameraDataType` array: its `_name` and
/// `spcamera_unique-id` fields, when they are strings.
pub struct ProfilerCamera {
    pub name: Option<String>,
    pub unique_id: Option<String>,
}

pub open spec fn opt_text(o: Option<String>) -> Option<Seq<char>> {
    match o {
        Some(s) => Some(s@),
        None => None,
    }
}

/// The text fields of one entry.
pub open spec fn entry_fields(c: ProfilerCamera) -> (Option<Seq<char>>, Option<Seq<char>>) {
    (opt_text(c.name), opt_text(c.unique_id))
}

/// One member of the top-level JSON object: its key, and its value read as an
/// array (`None` when it is not one), each element as the members of an
/// object (`None` for an element that is not an object).
pub struct JsonArrayMember {
    pub key: String,
    pub elements: Option<Vec<Option<Vec<JsonMember>>>>,
}

pub open spec fn array_member_view(m: JsonArrayMember) -> (
    Seq<char>,
    Option<Seq<Option<Seq<(Seq<char>, Option<u64>, Option<bool>, Option<Seq<char>>)>>>>,
) {
    (m.key@, match m.elements {
        Some(es) => Some(elements_view(es@)),
        None => None,
    })
}

pub open spec fn array_members_view(ms: Seq<JsonArrayMember>) -> Seq<
    (Seq<char>, Option<Seq<Option<Seq<(Seq<char>, Option<u64>, Option<bool>, Option<Seq<char>>)>>>>),
> {
    ms.map_values(|m: JsonArrayMember| array_member_view(m))
}

/// What `serde_json` reads from the bytes: `None` when they are not JSON,
/// else the members of the top-level object (none when it is not an object),
/// each with its value read as an array of objects.
pub uninterp spec fn json_object_arrays(bytes: Seq<u8>) -> Option<
    Seq<
        (
            Seq<char>,
            Option<Seq<Option<Seq<(Seq<char>, Option<u64>, Option<bool>, Option<Seq<char>>)>>>>,
        ),
    >,
>;

/// `serde_json::from_slice::<serde_json::Value>`, then `Value::as_object`,
/// `Value::as_array`, and for each member of each element `Value::as_u64`,
/// `Value::as_bool` and `Value::as_str`. The result is named
/// `json_object_arrays` of the bytes; the JSON grammar is not written out.
#[verifier::external_body]
fn parse_json_object(bytes: &[u8]) -> (r: Option<Vec<JsonArrayMember>>)
    ensures
        match r {
            Some(v) => json_object_arrays(bytes@) == Some(array_members_view(v@)),
            None => json_object_arrays(bytes@) is None,
        },
{
    let json: serde_json::Value = serde_json::from_slice(bytes).ok()?;
    Some(json.as_object().map_or(Vec::new(), |top| top.iter().map(|(key, v)| JsonArrayMember {
        key: key.clone(),
        elements: v.as_array().map(|a| a.iter().map(|e| e.as_object().map(|o| o.iter().map(|(k, x)| JsonMember {
            key: k.clone(),
            unsigned: x.as_u64(),
            flag: x.as_bool(),
            text: x.as_str().map(|s| s.to_string()),
        }).collect())).collect()),
    }).collect()))
}

/// The array of the first top-level member with the given key, when its
/// value is an array.
pub open spec fn array_with_key(
    ms: Seq<(Seq<char>, Option<Seq<Option<Seq<(Seq<char>, Option<u64>, Option<bool>, Option<Seq<char>>)>>>>)>,
    key: Seq<char>,
) -> Option<Seq<Option<Seq<(Seq<char>, Option<u64>, Option<bool>, Option<Seq<char>>)>>>>
    decreases ms.len(),
{
    if ms.len() == 0 {
        None
    } else if ms[0].0 == key {
        ms[0].1
    } else {
        array_with_key(ms.drop_first(), key)
    }
}

/// The `_name` and `spcamera_unique-id` strings of one element.
pub open spec fn profiler_element(e: Option<Seq<(Seq<char>, Option<u64>, Option<bool>, Option<Seq<char>>)>>) -> (
    Option<Seq<char>>,
    Option<Seq<char>>,
) {
    match e {
        Some(ms) => (text_at(ms, "_name"@), text_at(ms, "spcamera_unique-id"@)),
        None => (None, None),
    }
}

/// What the report holds: `None` for output that is not JSON, `Some(None)`
/// when there is no `SPCameraDataType` array, else the fields of each of its
/// elements.
pub open spec fn profiler_fields(bytes: Seq<u8>) -> Option<Option<Seq<(Option<Seq<char>>, Option<Seq<char>>)>>> {
    match json_object_arrays(bytes) {
        None => None,
        Some(top) => match array_with_key(top, "SPCameraDataType"@) {
            None => Some(None),
            Some(es) => Some(
                Some(
                    es.map_values(
                        |e: Option<Seq<(Seq<char>, Option<u64>, Option<bool>, Option<Seq<char>>)>>|
                            profiler_element(e),
                    ),
                ),
            ),
        },
    }
}

/// The `SPCameraDataType` array among the top-level members, if it is one.
pub fn camera_array(top: Vec<JsonArrayMember>) -> (r: Option<Vec<Option<Vec<JsonMember>>>>)
    ensures
        match r {
            Some(es) => array_with_key(array_members_view(top@), "SPCameraDataType"@)
                == Some(elements_view(es@)),
            None => array_with_key(array_members_view(top@), "SPCameraDataType"@)
                is None,
        },
{
    let target = "SPCameraDataType".to_owned();
    let ghost key = "SPCameraDataType"@;
    let ghost all = array_members_view(top@);
    let mut rest = top;
    let total = rest.len();
    let mut i: usize = 0;
    assert(all.subrange(0, total as int) =~= all);
    while i < total
        invariant
            total == all.len(),
            all == array_members_view(top@),
            key == "SPCameraDataType"@,
            i <= total,
            target@ == key,
            array_members_view(rest@) == all.subrange(i as int, total as int),
            array_with_key(all, key) == array_with_key(all.subrange(i as int, total as int), key),
        decreases total - i,
    {
        assert(all.subrange(i as int, total as int).drop_first() =~= all.subrange(i + 1, total as int));
        let m = rest.remove(0);
        assert(array_member_view(m) == all[i as int]);
        assert(all.subrange(i as int, total as int)[0] == all[i as int]);
        if m.key == target {
            assert(array_with_key(all, key) == all[i as int].1);
            assert(all[i as int].1 == array_member_view(m).1);
            return match m.elements {
                Some(es) => {
                    assert(array_with_key(all, key) == Some(elements_view(es@)));
                    Some(es)
                },
                None => None,
            };
        }
        i = i + 1;
        assert(array_members_view(rest@) =~= all.subrange(i as int, total as int));
    }
    None
}

/// The `_name` and `spcamera_unique-id` strings of one element.
pub fn profiler_camera_of(e: &Option<Vec<JsonMember>>) -> (r: ProfilerCamera)
    ensures
        entry_fields(r) == profiler_element(element_view(*e)),
{
    match e {
        Some(ms) => ProfilerCamera { name: text_member(ms, "_name"), unique_id: text_member(ms, "spcamera_unique-id") },
        None => ProfilerCamera { name: None, unique_id: None },
    }
}

/// The fields of every element, in order.
pub fn profiler_cameras_of(elements: &Vec<Option<Vec<JsonMember>>>) -> (r: Vec<ProfilerCamera>)
    ensures
        r@.map_values(|c: ProfilerCamera| entry_fields(c)) == elements_view(elements@).map_values(
            |e: Option<Seq<(Seq<char>, Option<u64>, Option<bool>, Option<Seq<char>>)>>| profiler_element(e),
        ),
{
    let n = elements.len();
    let mut out: Vec<ProfilerCamera> = Vec::new();
    let mut i: usize = 0;
    while i < n
        invariant
            n == elements@.len(),
            i <= n,
            out@.len() == i,
            forall|k: int|
                0 <= k < i ==> entry_fields(#[trigger] out@[k]) == profiler_element(element_view(elements@[k])),
        decreases n - i,
    {
        out.push(profiler_camera_of(&elements[i]));
        i = i + 1;
    }
    assert(out@.map_values(|c: ProfilerCamera| entry_fields(c)) =~= elements_view(elements@).map_values(
        |e: Option<Seq<(Seq<char>, Option<u64>, Option<bool>, Option<Seq<char>>)>>| profiler_element(e),
    ));
    out
}

/// The camera that entry `i` describes: index `i` (as `u32`), its name or
/// "Camera {i}", its unique id or the empty string.
pub open spec fn profiler_camera(i: int, f: (Option<Seq<char>>, Option<Seq<char>>)) -> CameraModel {
    CameraModel {
        index: i as u32,
        name: match f.0 {
            Some(n) => n,
            None => default_camera_name(i as nat),
        },
        unique_id: match f.1 {
            Some(u) => u,
            None => Seq::empty(),
        },
    }
}

/// The cameras of a report: one per entry, or the single fallback camera
/// when the array is empty.
pub open spec fn profiler_cameras(fields: Seq<(Option<Seq<char>>, Option<Seq<char>>)>) -> Seq<
    CameraModel,
> {
    if fields.len() == 0 {
        seq![fallback_camera()]
    } else {
        Seq::new(fields.len(), |i: int| profiler_camera(i, fields[i]))
    }
}

/// The cameras that the entries of the `SPCameraDataType` array describe.
pub fn cameras_from_profiler(entries: Vec<ProfilerCamera>) -> (r: Vec<CameraInfo>)
    ensures
        camera_views(r@) == profiler_cameras(entries@.map_values(|c: ProfilerCamera| entry_fields(c))),
{
    let ghost fields = entries@.map_values(|c: ProfilerCamera| entry_fields(c));
    if entries.len() == 0 {
        return fallback_cameras();
    }
    let mut entries = entries;
    let ghost all = entries@;
    let total = entries.len();
    let mut out: Vec<CameraInfo> = Vec::new();
    let mut idx: usize = 0;
    while idx < total
        invariant
            total == all.len(),
            fields == all.map_values(|c: ProfilerCamera| entry_fields(c)),
            idx <= total,
            entries@ == all.subrange(idx as int, total as int),
            out@.len() == idx,
            forall|k: int| 0 <= k < idx ==> #[trigger] out@[k]@ == profiler_camera(k, fields[k]),
        decreases total - idx,
    {
        let e = entries.remove(0);
        assert(e == all[idx as int]);
        let name = match e.name {
            Some(n) => n,
            None => camera_label(idx),
        };
        let unique_id = match e.unique_id {
            Some(u) => u,
            None => String::new(),
        };
        out.push(CameraInfo { index: idx as u32, name, unique_id });
        idx = idx + 1;
        assert(entries@ =~= all.subrange(idx as int, total as int));
    }
    assert(camera_views(out@) =~= profiler_cameras(fields));
    out
}

/// The cameras listed in the output of `system_profiler SPCameraDataType -json`.
pub fn list_cameras(stdout: &[u8]) -> (r: Result<Vec<CameraInfo>, CameraListError>)
    ensures
        match profiler_fields(stdout@) {
            None => r == Err::<Vec<CameraInfo>, CameraListError>(CameraListError::MalformedJson),
            Some(None) => r == Err::<Vec<CameraInfo>, CameraListError>(CameraListError::NoCameraArray),
            Some(Some(f)) => r matches Ok(v) && camera_views(v@) == profiler_cameras(f),
        },
{
    match parse_json_object(stdout) {
        None => Err(CameraListError::MalformedJson),
        Some(top) => match camera_array(top) {
            None => Err(CameraListError::NoCameraArray),
            Some(elements) => Ok(cameras_from_profiler(profiler_cameras_of(&elements))),
        },
    }
}

} // verus!
