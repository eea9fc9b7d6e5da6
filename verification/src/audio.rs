//! Audio output devices: which devices count as outputs, how a device is found
//! by its name, and which device a stream opens on.
//!
//! Devices are identified by name: the ids that the audio backend hands out
//! change when the system re-enumerates devices. With no name configured, a
//! stream opens on the device that the backend marks as the system default.

use vstd::prelude::*;

verus! {

/// An audio device as the backend reports it.
#[derive(Debug, Clone)]
pub struct AudioDevice {
    pub id: u32,
    pub name: String,
    pub output_channels: u32,
    pub sample_rate: u32,
    /// Whether the backend reports this device as the system default output.
    pub is_default: bool,
}

/// The devices that have output channels, in the order given.
pub open spec fn with_outputs(devs: Seq<AudioDevice>) -> Seq<AudioDevice>
    decreases devs.len(),
{
    if devs.len() == 0 {
        Seq::empty()
    } else {
        with_outputs(devs.drop_last()) + if devs.last().output_channels > 0 {
            seq![devs.last()]
        } else {
            Seq::empty()
        }
    }
}

/// The id of the first device called `name`, if any.
pub open spec fn first_named(devs: Seq<AudioDevice>, name: Seq<char>) -> Option<u32>
    decreases devs.len(),
{
    if devs.len() == 0 {
        None
    } else if devs[0].name@ == name {
        Some(devs[0].id)
    } else {
        first_named(devs.drop_first(), name)
    }
}

/// The id of the first device that the backend marks as the default, if any.
pub open spec fn first_default(devs: Seq<AudioDevice>) -> Option<u32>
    decreases devs.len(),
{
    if devs.len() == 0 {
        None
    } else if devs[0].is_default {
        Some(devs[0].id)
    } else {
        first_default(devs.drop_first())
    }
}

/// Keeps the devices that can play (at least one output channel), in order.
pub fn output_devices(all: Vec<AudioDevice>) -> (r: Vec<AudioDevice>)
    ensures
        r@ == with_outputs(all@),
{
    let mut all = all;
    let ghost orig = all@;
    let total = all.len();
    let mut out: Vec<AudioDevice> = Vec::new();
    let mut k: usize = 0;
    while k < total
        invariant
            total == orig.len(),
            k <= total,
            all@ == orig.subrange(k as int, total as int),
            out@ == with_outputs(orig.subrange(0, k as int)),
        decreases total - k,
    {
        let d = all.remove(0);
        assert(d == orig[k as int]);
        assert(orig.subrange(0, k + 1).drop_last() =~= orig.subrange(0, k as int));
        if d.output_channels > 0 {
            out.push(d);
        }
        assert(out@ =~= with_outputs(orig.subrange(0, k + 1)));
        k = k + 1;
        assert(all@ =~= orig.subrange(k as int, total as int));
    }
    assert(orig.subrange(0, total as int) =~= orig);
    out
}

/// The id of the first device called `name`.
pub fn find_device_id_by_name(devices: &[AudioDevice], name: &str) -> (r: Option<u32>)
    ensures
        r == first_named(devices@, name@),
{
    let target = name.to_owned();
    let n = devices.len();
    let mut i: usize = 0;
    assert(devices@.subrange(0, n as int) =~= devices@);
    while i < n
        invariant
            n == devices@.len(),
            i <= n,
            target@ == name@,
            first_named(devices@, name@) == first_named(devices@.subrange(i as int, n as int), name@),
        decreases n - i,
    {
        assert(devices@.subrange(i as int, n as int).drop_first() =~= devices@.subrange(i + 1, n as int));
        if devices[i].name == target {
            return Some(devices[i].id);
        }
        i = i + 1;
    }
    None
}

/// The id of the first device marked as the system default.
pub fn find_default_device_id(devices: &[AudioDevice]) -> (r: Option<u32>)
    ensures
        r == first_default(devices@),
{
    let n = devices.len();
    let mut i: usize = 0;
    assert(devices@.subrange(0, n as int) =~= devices@);
    while i < n
        invariant
            n == devices@.len(),
            i <= n,
            first_default(devices@) == first_default(devices@.subrange(i as int, n as int)),
        decreases n - i,
    {
        assert(devices@.subrange(i as int, n as int).drop_first() =~= devices@.subrange(i + 1, n as int));
        if devices[i].is_default {
            return Some(devices[i].id);
        }
        i = i + 1;
    }
    None
}

/// Why no output stream can be opened.
#[derive(Debug, Clone, PartialEq, Eq)]
pub enum OutputDeviceError {
    /// No device has the configured name.
    DeviceNotFound,
    /// No output device exists at all.
    NoOutputDevice,
}

/// The device a stream opens on: the device with the configured name when a
/// non-empty name is configured, else the device that the backend marks as
/// the system default. With no name and no device marked as the default,
/// there is no output device to open.
pub fn select_output_device(device_name: Option<&str>, devices: &[AudioDevice]) -> (r: Result<
    u32,
    OutputDeviceError,
>)
    ensures
        match device_name {
            Some(n) if n@.len() > 0 => match first_named(devices@, n@) {
                Some(id) => r == Ok::<u32, OutputDeviceError>(id),
                None => r == Err::<u32, OutputDeviceError>(OutputDeviceError::DeviceNotFound),
            },
            _ => match first_default(devices@) {
                Some(id) => r == Ok::<u32, OutputDeviceError>(id),
                None => r == Err::<u32, OutputDeviceError>(OutputDeviceError::NoOutputDevice),
            },
        },
{
    match device_name {
        Some(n) if !n.is_empty() => match find_device_id_by_name(devices, n) {
            Some(id) => Ok(id),
            None => Err(OutputDeviceError::DeviceNotFound),
        },
        _ => match find_default_device_id(devices) {
            Some(id) => Ok(id),
            None => Err(OutputDeviceError::NoOutputDevice),
        },
    }
}

/// A device found by name has that name, and no earlier device has it.
pub proof fn lemma_first_named_is_first(devs: Seq<AudioDevice>, name: Seq<char>)
    ensures
        first_named(devs, name) matches Some(id) ==> exists|i: int|
            0 <= i < devs.len() && #[trigger] devs[i].name@ == name && devs[i].id == id && forall|j: int|
                0 <= j < i ==> devs[j].name@ != name,
        first_named(devs, name) is None ==> forall|i: int| 0 <= i < devs.len() ==> #[trigger] devs[i].name@ != name,
    decreases devs.len(),
{
    if devs.len() > 0 && devs[0].name@ != name {
        let rest = devs.drop_first();
        lemma_first_named_is_first(rest, name);
        if let Some(id) = first_named(devs, name) {
            let i = choose|i: int|
                0 <= i < rest.len() && #[trigger] rest[i].name@ == name && rest[i].id == id && forall|j: int|
                    0 <= j < i ==> rest[j].name@ != name;
            assert(devs[i + 1] == rest[i]);
            assert forall|j: int| 0 <= j < i + 1 implies devs[j].name@ != name by {
                if j > 0 {
                    assert(devs[j] == rest[j - 1]);
                }
            }
        } else {
            assert forall|i: int| 0 <= i < devs.len() implies #[trigger] devs[i].name@ != name by {
                if i > 0 {
                    assert(devs[i] == rest[i - 1]);
                }
            }
        }
    }
}

/// Every kept device has output channels, and every device with output
/// channels is kept.
pub proof fn lemma_with_outputs_exact(devs: Seq<AudioDevice>)
    ensures
        forall|i: int| 0 <= i < with_outputs(devs).len() ==> #[trigger] with_outputs(devs)[i].output_channels > 0,
        forall|d: AudioDevice| devs.contains(d) && d.output_channels > 0 ==> #[trigger] with_outputs(devs).contains(d),
        forall|d: AudioDevice| #[trigger] with_outputs(devs).contains(d) ==> devs.contains(d),
    decreases devs.len(),
{
    if devs.len() > 0 {
        let init = devs.drop_last();
        lemma_with_outputs_exact(init);
        let tail: Seq<AudioDevice> = if devs.last().output_channels > 0 { seq![devs.last()] } else { Seq::empty() };
        assert(with_outputs(devs) == with_outputs(init) + tail);
        assert forall|i: int| 0 <= i < with_outputs(devs).len() implies #[trigger] with_outputs(devs)[i].output_channels > 0 by {
            if i >= with_outputs(init).len() {
                assert(with_outputs(devs)[i] == tail[i - with_outputs(init).len()]);
            } else {
                assert(with_outputs(devs)[i] == with_outputs(init)[i]);
            }
        }
        assert forall|d: AudioDevice| devs.contains(d) && d.output_channels > 0 implies #[trigger] with_outputs(devs).contains(d) by {
            let k = choose|k: int| 0 <= k < devs.len() && devs[k] == d;
            if k < devs.len() - 1 {
                assert(init[k] == d);
                assert(init.contains(d));
                assert(with_outputs(init).contains(d));
                let m = choose|m: int| 0 <= m < with_outputs(init).len() && with_outputs(init)[m] == d;
                assert(with_outputs(devs)[m] == d);
            } else {
                assert(with_outputs(devs)[with_outputs(init).len() as int] == d);
            }
        }
        assert forall|d: AudioDevice| #[trigger] with_outputs(devs).contains(d) implies devs.contains(d) by {
            let m = choose|m: int| 0 <= m < with_outputs(devs).len() && with_outputs(devs)[m] == d;
            if m < with_outputs(init).len() {
                assert(with_outputs(init)[m] == d);
                assert(with_outputs(init).contains(d));
                let k = choose|k: int| 0 <= k < init.len() && init[k] == d;
                assert(devs[k] == d);
            } else {
                assert(devs[devs.len() - 1] == d);
            }
        }
    }
}

} // verus!
