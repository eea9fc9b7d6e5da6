use mado::audio::{
    find_default_device_id, find_device_id_by_name, output_devices, select_output_device, AudioDevice,
    OutputDeviceError,
};

fn dev(id: u32, name: &str, out: u32) -> AudioDevice {
    AudioDevice { id, name: name.to_string(), output_channels: out, sample_rate: 48_000, is_default: false }
}

fn default_dev(id: u32, name: &str, out: u32) -> AudioDevice {
    AudioDevice { is_default: true, ..dev(id, name, out) }
}

#[test]
fn output_devices_keep_order_and_drop_inputs() {
    let all = vec![dev(1, "Mic", 0), dev(2, "Speakers", 2), dev(3, "Line In", 0), dev(4, "HDMI", 8)];
    let outs = output_devices(all);
    let ids: Vec<u32> = outs.iter().map(|d| d.id).collect();
    assert_eq!(ids, vec![2, 4]);
    assert!(output_devices(vec![]).is_empty());
}

#[test]
fn find_by_name_takes_first_match() {
    let devs = vec![dev(5, "A", 2), dev(6, "B", 2), dev(7, "B", 2)];
    assert_eq!(find_device_id_by_name(&devs, "B"), Some(6));
    assert_eq!(find_device_id_by_name(&devs, "A"), Some(5));
    assert_eq!(find_device_id_by_name(&devs, "C"), None);
    assert_eq!(find_device_id_by_name(&devs, "b"), None);
    assert_eq!(find_device_id_by_name(&[], "A"), None);
}

#[test]
fn select_device_by_name_or_system_default() {
    let devs = vec![dev(3, "A", 2), default_dev(7, "B", 2)];
    assert_eq!(select_output_device(Some("A"), &devs), Ok(3));
    assert_eq!(select_output_device(Some("Z"), &devs), Err(OutputDeviceError::DeviceNotFound));
    assert_eq!(select_output_device(None, &devs), Ok(7));
    assert_eq!(select_output_device(Some(""), &devs), Ok(7));
    assert_eq!(select_output_device(None, &[]), Err(OutputDeviceError::NoOutputDevice));
    assert_eq!(select_output_device(Some("A"), &[]), Err(OutputDeviceError::DeviceNotFound));
    let no_default = vec![dev(3, "A", 2), dev(4, "B", 2)];
    assert_eq!(select_output_device(None, &no_default), Err(OutputDeviceError::NoOutputDevice));
}

#[test]
fn default_device_is_the_first_marked() {
    let devs = vec![dev(1, "A", 2), default_dev(2, "B", 2), default_dev(9, "C", 2)];
    assert_eq!(find_default_device_id(&devs), Some(2));
    assert_eq!(find_default_device_id(&[dev(1, "A", 2)]), None);
    assert_eq!(find_default_device_id(&[]), None);
}
