//! Listing the cameras on Windows from the JSON that the capture service prints
//! when run with `--list_cameras`: an array of
//! `{"index": 0, "name": "...", "opened": true}` objects, one per probed index.
//! Any failure (no output, not text, blank, not a JSON array, no usable camera)
//! falls back to the single camera "Camera 0".

use vstd::prelude::*;
use vstd::utf8::{valid_utf8, decode_utf8};
use crate::camera::json::{
    element_view, elements_view, flag_at, flag_member, text_at, text_member, unsigned_at, unsigned_member,
    JsonMember,
};
use crate::camera::{
    camera_label, camera_views, default_camera_name, fallback_camera, fallback_cameras,
    CameraInfo, CameraListError, CameraModel,
};

verus! {

/// Whether `c` has the Unicode `White_Space` property, which `str::trim` strips.
pub open spec fn is_white_space(c: char) -> bool {
    let u = c as u32;
    ||| 0x09 <= u <= 0x0D
    ||| u == 0x20
    ||| u == 0x85
    ||| u == 0xA0
    ||| u == 0x1680
    ||| 0x2000 <= u <= 0x200A
    ||| u == 0x2028
    ||| u == 0x2029
    ||| u == 0x202F
    ||| u == 0x205F
    ||| u == 0x3000
}

pub open spec fn trim_start_text(s: Seq<char>) -> Seq<char>
    decreases s.len(),
{
    if s.len() > 0 && is_white_space(s[0]) {
        trim_start_text(s.drop_first())
    } else {
        s
    }
}

pub open spec fn trim_end_text(s: Seq<char>) -> Seq<char>
    decreases s.len(),
{
    if s.len() > 0 && is_white_space(s.last()) {
        trim_end_text(s.drop_last())
    } else {
        s
    }
}

/// `s` without its leading and trailing white space.
pub open spec fn trim_text(s: Seq<char>) -> Seq<char> {
    trim_end_text(trim_start_text(s))
}

/// `std::str::from_utf8`: text exactly when the bytes are valid UTF-8, and
/// then the text that they encode.
#[verifier::external_body]
fn utf8_text(bytes: &[u8]) -> (r: Option<String>)
    ensures
        r is Some == valid_utf8(bytes@),
        r matches Some(s) ==> s@ == decode_utf8(bytes@),
{
    std::str::from_utf8(bytes).ok().map(|s| s.to_string())
}

/// Whether `c` has the Unicode `White_Space` property.
fn white_space(c: char) -> (r: bool)
    ensures
        r == is_white_space(c),
{
    let u = c as u32;
    (0x09 <= u && u <= 0x0D) || u == 0x20 || u == 0x85 || u == 0xA0 || u == 0x1680 || (0x2000 <= u
        && u <= 0x200A) || u == 0x2028 || u == 0x2029 || u == 0x202F || u == 0x205F || u == 0x3000
}

/// The text without leading and trailing `White_Space` characters, as
/// `str::trim` gives it.
pub fn trim(s: &str) -> (r: String)
    ensures
        r@ == trim_text(s@),
{
    let n = s.unicode_len();
    let mut start: usize = 0;
    assert(s@.subrange(0, n as int) =~= s@);
    while start < n && white_space(s.get_char(start))
        invariant
            n == s@.len(),
            start <= n,
            trim_start_text(s@) == trim_start_text(s@.subrange(start as int, n as int)),
        decreases n - start,
    {
        assert(s@.subrange(start as int, n as int)[0] == s@[start as int]);
        assert(s@.subrange(start as int, n as int).drop_first() =~= s@.subrange(start + 1, n as int));
        start = start + 1;
    }
    proof {
        if start < n {
            assert(s@.subrange(start as int, n as int)[0] == s@[start as int]);
        }
    }
    let ghost t = s@.subrange(start as int, n as int);
    assert(trim_start_text(s@) == t);
    let mut end: usize = n;
    assert(s@.subrange(start as int, n as int) =~= t);
    while end > start && white_space(s.get_char(end - 1))
        invariant
            n == s@.len(),
            start <= end <= n,
            t == s@.subrange(start as int, n as int),
            trim_end_text(t) == trim_end_text(s@.subrange(start as int, end as int)),
        decreases end - start,
    {
        assert(s@.subrange(start as int, end as int).last() == s@[end - 1]);
        assert(s@.subrange(start as int, end as int).drop_last() =~= s@.subrange(start as int, end - 1));
        end = end - 1;
    }
    proof {
        if end > start {
            assert(s@.subrange(start as int, end as int).last() == s@[end - 1]);
        }
    }
    String::from_str(s.substring_char(start, end))
}

/// One element of the probe array: its `index` (when an unsigned integer),
/// `opened` (when a boolean) and `name` (when a string).
pub struct ProbeCamera {
    pub index: Option<u64>,
    pub opened: Option<bool>,
    pub name: Option<String>,
}

pub open spec fn probe_entry(c: ProbeCamera) -> (Option<u64>, Option<bool>, Option<Seq<char>>) {
    (c.index, c.opened, match c.name {
        Some(n) => Some(n@),
        None => None,
    })
}

/// What `serde_json` reads from a text that holds a JSON array: for each
/// element, the members of the object (`None` for an element that is not an
/// object). `None` when the text is not a JSON array.
pub uninterp spec fn json_array_elements(text: Seq<char>) -> Option<
    Seq<Option<Seq<(Seq<char>, Option<u64>, Option<bool>, Option<Seq<char>>)>>>,
>;

/// `serde_json::from_str::<Vec<serde_json::Value>>`, then, for each element,
/// `Value::as_object` and, for each member, `Value::as_u64`, `Value::as_bool`
/// and `Value::as_str`. The result is named `json_array_elements` of the text;
/// the JSON grammar is not written out.
#[verifier::external_body]
fn parse_json_array(text: &str) -> (r: Option<Vec<Option<Vec<JsonMember>>>>)
    ensures
        match r {
            Some(v) => json_array_elements(text@) == Some(elements_view(v@)),
            None => json_array_elements(text@) is None,
        },
{
    let arr: Vec<serde_json::Value> = serde_json::from_str(text).ok()?;
    Some(arr.iter().map(|e| e.as_object().map(|o| o.iter().map(|(k, v)| JsonMember {
        key: k.clone(),
        unsigned: v.as_u64(),
        flag: v.as_bool(),
        text: v.as_str().map(|s| s.to_string()),
    }).collect())).collect())
}

/// What the probe reads from one element: its `index`, `opened` and `name`.
pub open spec fn probe_element(e: Option<Seq<(Seq<char>, Option<u64>, Option<bool>, Option<Seq<char>>)>>) -> (
    Option<u64>,
    Option<bool>,
    Option<Seq<char>>,
) {
    match e {
        Some(ms) => (unsigned_at(ms, "index"@), flag_at(ms, "opened"@), text_at(ms, "name"@)),
        None => (None, None, None),
    }
}

/// The `index`, `opened` and `name` members of one element.
pub fn probe_camera_of(e: &Option<Vec<JsonMember>>) -> (r: ProbeCamera)
    ensures
        probe_entry(r) == probe_element(element_view(*e)),
{
    match e {
        Some(ms) => ProbeCamera {
            index: unsigned_member(ms, "index"),
            opened: flag_member(ms, "opened"),
            name: text_member(ms, "name"),
        },
        None => ProbeCamera { index: None, opened: None, name: None },
    }
}

/// The fields of every element, in order.
pub fn probe_cameras_of(elements: &Vec<Option<Vec<JsonMember>>>) -> (r: Vec<ProbeCamera>)
    ensures
        r@.map_values(|c: ProbeCamera| probe_entry(c)) == elements_view(elements@).map_values(
            |e: Option<Seq<(Seq<char>, Option<u64>, Option<bool>, Option<Seq<char>>)>>| probe_element(e),
        ),
{
    let n = elements.len();
    let mut out: Vec<ProbeCamera> = Vec::new();
    let mut i: usize = 0;
    while i < n
        invariant
            n == elements@.len(),
            i <= n,
            out@.len() == i,
            forall|k: int|
                0 <= k < i ==> probe_entry(#[trigger] out@[k]) == probe_element(element_view(elements@[k])),
        decreases n - i,
    {
        out.push(probe_camera_of(&elements[i]));
        i = i + 1;
    }
    assert(out@.map_values(|c: ProbeCamera| probe_entry(c)) =~= elements_view(elements@).map_values(
        |e: Option<Seq<(Seq<char>, Option<u64>, Option<bool>, Option<Seq<char>>)>>| probe_element(e),
    ));
    out
}

/// The camera an element describes: only elements with an index that were
/// opened count; the index is taken as `u32`; an absent or empty name becomes
/// "Camera {index}".
pub open spec fn probe_camera(f: (Option<u64>, Option<bool>, Option<Seq<char>>)) -> Option<
    CameraModel,
> {
    match f.0 {
        None => None,
        Some(ix) => if f.1 == Some(true) {
            let idx = ix as u32;
            Some(
                CameraModel {
                    index: idx,
                    name: match f.2 {
                        Some(n) => if n.len() > 0 {
                            n
                        } else {
                            default_camera_name(idx as nat)
                        },
                        None => default_camera_name(idx as nat),
                    },
                    unique_id: Seq::empty(),
                },
            )
        } else {
            None
        },
    }
}

/// The cameras that the elements describe, in order.
pub open spec fn probed_cameras(fields: Seq<(Option<u64>, Option<bool>, Option<Seq<char>>)>) -> Seq<
    CameraModel,
>
    decreases fields.len(),
{
    if fields.len() == 0 {
        Seq::empty()
    } else {
        probed_cameras(fields.drop_last()) + match probe_camera(fields.last()) {
            Some(c) => seq![c],
            None => Seq::empty(),
        }
    }
}

/// The list shown: the probed cameras, or the fallback camera when none.
pub open spec fn probe_listing(fields: Seq<(Option<u64>, Option<bool>, Option<Seq<char>>)>) -> Seq<
    CameraModel,
> {
    if probed_cameras(fields).len() == 0 {
        seq![fallback_camera()]
    } else {
        probed_cameras(fields)
    }
}

/// The list shown for the output of the probe (`None`: it could not be run).
pub open spec fn windows_listing(stdout: Option<Seq<u8>>) -> Seq<CameraModel> {
    match stdout {
        None => seq![fallback_camera()],
        Some(b) => if !valid_utf8(b) {
            seq![fallback_camera()]
        } else if trim_text(decode_utf8(b)).len() == 0 {
            seq![fallback_camera()]
        } else {
            match json_array_elements(trim_text(decode_utf8(b))) {
                None => seq![fallback_camera()],
                Some(es) => probe_listing(
                    es.map_values(
                        |e: Option<Seq<(Seq<char>, Option<u64>, Option<bool>, Option<Seq<char>>)>>|
                            probe_element(e),
                    ),
                ),
            }
        },
    }
}

/// The cameras that the probe elements describe, or the fallback camera.
pub fn cameras_from_probe(entries: Vec<ProbeCamera>) -> (r: Vec<CameraInfo>)
    ensures
        camera_views(r@) == probe_listing(entries@.map_values(|c: ProbeCamera| probe_entry(c))),
{
    let ghost fields = entries@.map_values(|c: ProbeCamera| probe_entry(c));
    let mut entries = entries;
    let ghost all = entries@;
    let total = entries.len();
    let mut out: Vec<CameraInfo> = Vec::new();
    let mut k: usize = 0;
    while k < total
        invariant
            total == all.len(),
            fields == all.map_values(|c: ProbeCamera| probe_entry(c)),
            k <= total,
            entries@ == all.subrange(k as int, total as int),
            camera_views(out@) == probed_cameras(fields.subrange(0, k as int)),
        decreases total - k,
    {
        let e = entries.remove(0);
        assert(e == all[k as int]);
        assert(fields.subrange(0, k + 1).drop_last() =~= fields.subrange(0, k as int));
        let ghost before = out@;
        if let Some(ix) = e.index {
            if let Some(true) = e.opened {
                let idx = ix as u32;
                let name = match e.name {
                    Some(n) => if n.as_str().is_empty() {
                        camera_label(idx as usize)
                    } else {
                        n
                    },
                    None => camera_label(idx as usize),
                };
                out.push(CameraInfo { index: idx, name, unique_id: String::new() });
            }
        }
        assert(camera_views(out@) =~= probed_cameras(fields.subrange(0, k + 1)));
        k = k + 1;
        assert(entries@ =~= all.subrange(k as int, total as int));
    }
    assert(fields.subrange(0, total as int) =~= fields);
    if out.len() == 0 {
        return fallback_cameras();
    }
    out
}

/// The cameras listed by the probe output (`None`: the probe could not be
/// run). Never fails: every failure gives the fallback camera.
pub fn list_cameras(stdout: Option<&[u8]>) -> (r: Result<Vec<CameraInfo>, CameraListError>)
    ensures
        r matches Ok(v) && camera_views(v@) == windows_listing(
            match stdout {
                Some(b) => Some(b@),
                None => None,
            },
        ),
{
    proof {
        reveal_strlit("index");
        reveal_strlit("opened");
        reveal_strlit("name");
    }
    let bytes = match stdout {
        Some(b) => b,
        None => return Ok(fallback_cameras()),
    };
    let text = match utf8_text(bytes) {
        Some(t) => t,
        None => return Ok(fallback_cameras()),
    };
    let trimmed = trim(text.as_str());
    if trimmed.as_str().is_empty() {
        return Ok(fallback_cameras());
    }
    match parse_json_array(trimmed.as_str()) {
        Some(elements) => Ok(cameras_from_probe(probe_cameras_of(&elements))),
        None => Ok(fallback_cameras()),
    }
}

} // verus!
