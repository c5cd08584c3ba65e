use v4l::device::Device;
use v4l::device::Direction;
use v4l::device::FormatReply;
use v4l::device::NodeReply;
use v4l::error::Error;
use v4l::capture::Format;
use v4l::FourCC;

fn capture_device() -> Device {
    Device::open(Direction::Capture, NodeReply::Opened { capture: true, output: false }).unwrap()
}

#[test]
fn open_needs_the_node_and_the_capability() {
    let both = NodeReply::Opened { capture: true, output: true };
    let capture_only = NodeReply::Opened { capture: true, output: false };
    let output_only = NodeReply::Opened { capture: false, output: true };
    assert!(Device::open(Direction::Capture, both).is_ok());
    assert!(Device::open(Direction::Output, both).is_ok());
    assert!(Device::open(Direction::Capture, capture_only).is_ok());
    assert!(Device::open(Direction::Output, output_only).is_ok());
    assert_eq!(Device::open(Direction::Output, capture_only).err(), Some(Error::DeviceError));
    assert_eq!(Device::open(Direction::Capture, output_only).err(), Some(Error::DeviceError));
    assert_eq!(Device::open(Direction::Capture, NodeReply::Missing).err(), Some(Error::DeviceError));
    assert_eq!(Device::open(Direction::Output, NodeReply::Missing).err(), Some(Error::DeviceError));
}

#[test]
fn a_new_handle_has_its_direction_and_no_format() {
    let dev = capture_device();
    assert_eq!(dev.direction(), Direction::Capture);
    assert_eq!(dev.format(), None);
    let out =
        Device::open(Direction::Output, NodeReply::Opened { capture: false, output: true }).unwrap();
    assert_eq!(out.direction(), Direction::Output);
}

#[test]
fn a_format_accepted_verbatim_is_in_effect() {
    let mut dev = capture_device();
    let requested = Format::new(640, 480, FourCC::new(b"YUYV"));
    let effective = dev.set_format(FormatReply::Accepted(requested.into()));
    assert_eq!(effective, Ok(requested));
    assert_eq!(dev.format(), Some(requested));
    assert_eq!(dev.get_format(FormatReply::Accepted(requested.into())), Ok(requested));
}

#[test]
fn a_clamped_format_is_reported_as_clamped() {
    let mut dev = capture_device();
    let requested = Format::new(640, 480, FourCC::new(b"YUYV"));
    let mut clamped = requested.into();
    clamped.height = 360;
    clamped.bytesperline = 1280;
    clamped.sizeimage = 460_800;
    let effective = dev.set_format(FormatReply::Accepted(clamped)).unwrap();
    assert_eq!(effective.width, 640);
    assert_eq!(effective.height, 360);
    assert_eq!(effective.stride, 1280);
    assert_eq!(effective.size, 460_800);
    assert_ne!(effective, requested);
    assert_eq!(dev.format(), Some(effective));
    assert_eq!(dev.get_format(FormatReply::Accepted(clamped)), Ok(effective));
    assert_eq!(dev.format().unwrap().height, 360);
}

#[test]
fn submitting_the_effective_format_again_changes_nothing() {
    let mut dev = capture_device();
    let mut clamped = Format::new(641, 481, FourCC::new(b"MJPG")).into();
    clamped.width = 640;
    clamped.height = 480;
    let once = dev.set_format(FormatReply::Accepted(clamped)).unwrap();
    let twice = dev.set_format(FormatReply::Accepted(once.into())).unwrap();
    assert_eq!(twice, once);
    assert_eq!(dev.format(), Some(once));
}

#[test]
fn a_rejected_format_is_a_device_error_and_changes_nothing() {
    let mut dev = capture_device();
    assert_eq!(dev.set_format(FormatReply::Rejected), Err(Error::DeviceError));
    assert_eq!(dev.format(), None);
    let first = Format::new(320, 240, FourCC::new(b"YUYV"));
    assert_eq!(dev.set_format(FormatReply::Accepted(first.into())), Ok(first));
    assert_eq!(dev.set_format(FormatReply::Rejected), Err(Error::DeviceError));
    assert_eq!(dev.get_format(FormatReply::Rejected), Err(Error::DeviceError));
    assert_eq!(dev.format(), Some(first));
    assert_eq!(dev.direction(), Direction::Capture);
}

#[test]
fn an_answer_that_names_no_format_is_a_device_error() {
    let mut dev = capture_device();
    let mut raw = Format::new(320, 240, FourCC::new(b"YUYV")).into();
    raw.field = 77;
    assert_eq!(dev.set_format(FormatReply::Accepted(raw)), Err(Error::DeviceError));
    assert_eq!(dev.get_format(FormatReply::Accepted(raw)), Err(Error::DeviceError));
    assert_eq!(dev.format(), None);
}
