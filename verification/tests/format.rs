use v4l::colorspace::Colorspace;
use v4l::field_order::FieldOrder;
use v4l::capture::Format;
use v4l::capture::PixFormat;
use v4l::FourCC;
use v4l::quantization::Quantization;

fn yuyv_raw() -> PixFormat {
    PixFormat {
        width: 640,
        height: 480,
        pixelformat: 0x5659_5559,
        field: 1,
        bytesperline: 1280,
        sizeimage: 614_400,
        colorspace: 8,
        quantization: 2,
    }
}

#[test]
fn new_leaves_the_rest_to_the_driver() {
    let fmt = Format::new(640, 480, FourCC::new(b"YUYV"));
    assert_eq!(fmt.width, 640);
    assert_eq!(fmt.height, 480);
    assert_eq!(fmt.fourcc.repr, *b"YUYV");
    assert_eq!(fmt.field_order, FieldOrder::Any);
    assert_eq!(fmt.stride, 0);
    assert_eq!(fmt.size, 0);
    assert_eq!(fmt.colorspace, Colorspace::Default);
    assert_eq!(fmt.quantization, Quantization::Default);
}

#[test]
fn fourcc_code_is_little_endian() {
    assert_eq!(FourCC::new(b"YUYV").code(), 0x5659_5559);
    assert_eq!(FourCC::new(b"MJPG").code(), 0x4750_4a4d);
    assert_eq!(FourCC::new(&[0, 0, 0, 0]).code(), 0);
    assert_eq!(FourCC::new(&[255, 255, 255, 255]).code(), u32::MAX);
}

#[test]
fn fourcc_from_code_undoes_code() {
    assert_eq!(FourCC::from_code(0x5659_5559).repr, *b"YUYV");
    assert_eq!(FourCC::from_code(u32::MAX).repr, [255, 255, 255, 255]);
    assert_eq!(FourCC::from_code(1).repr, [1, 0, 0, 0]);
    assert_eq!(FourCC::from_code(0x0100_0000).repr, [0, 0, 0, 1]);
    for code in [0u32, 1, 255, 256, 65_535, 65_536, 0x4750_4a4d, u32::MAX - 1] {
        assert_eq!(FourCC::from_code(code).code(), code);
    }
}

#[test]
fn field_order_codes() {
    let all = [
        (FieldOrder::Any, 0u32),
        (FieldOrder::Progressive, 1),
        (FieldOrder::Top, 2),
        (FieldOrder::Bottom, 3),
        (FieldOrder::Interlaced, 4),
        (FieldOrder::SequentialTB, 5),
        (FieldOrder::SequentialBT, 6),
        (FieldOrder::Alternate, 7),
        (FieldOrder::InterlacedTB, 8),
        (FieldOrder::InterlacedBT, 9),
    ];
    for (order, code) in all {
        assert_eq!(order.code(), code);
        assert_eq!(FieldOrder::from_code(code), Some(order));
    }
    assert_eq!(FieldOrder::from_code(10), None);
    assert_eq!(FieldOrder::from_code(u32::MAX), None);
}

#[test]
fn colorspace_codes() {
    let all = [
        (Colorspace::Default, 0u32),
        (Colorspace::SMPTE170M, 1),
        (Colorspace::SMPTE240M, 2),
        (Colorspace::Rec709, 3),
        (Colorspace::NTSC, 5),
        (Colorspace::EBUTech3213, 6),
        (Colorspace::JPEG, 7),
        (Colorspace::SRGB, 8),
        (Colorspace::OPRGB, 9),
        (Colorspace::Rec2020, 10),
        (Colorspace::RAW, 11),
        (Colorspace::DCIP3, 12),
    ];
    for (space, code) in all {
        assert_eq!(space.code(), code);
        assert_eq!(Colorspace::from_code(code), Some(space));
    }
    assert_eq!(Colorspace::from_code(4), None);
    assert_eq!(Colorspace::from_code(13), None);
}

#[test]
fn quantization_codes() {
    let all = [
        (Quantization::Default, 0u32),
        (Quantization::FullRange, 1),
        (Quantization::LimitedRange, 2),
    ];
    for (quantization, code) in all {
        assert_eq!(quantization.code(), code);
        assert_eq!(Quantization::from_code(code), Some(quantization));
    }
    assert_eq!(Quantization::from_code(3), None);
}

#[test]
fn from_reads_every_member() {
    let fmt = Format::from(yuyv_raw());
    assert_eq!(
        fmt,
        Format {
            width: 640,
            height: 480,
            field_order: FieldOrder::Progressive,
            fourcc: FourCC::new(b"YUYV"),
            stride: 1280,
            size: 614_400,
            colorspace: Colorspace::SRGB,
            quantization: Quantization::LimitedRange,
        }
    );
}

#[test]
fn into_writes_every_member() {
    let fmt = Format {
        width: 1920,
        height: 1080,
        field_order: FieldOrder::InterlacedBT,
        fourcc: FourCC::new(b"MJPG"),
        stride: 3840,
        size: 4_147_200,
        colorspace: Colorspace::DCIP3,
        quantization: Quantization::FullRange,
    };
    assert_eq!(
        fmt.into(),
        PixFormat {
            width: 1920,
            height: 1080,
            pixelformat: 0x4750_4a4d,
            field: 9,
            bytesperline: 3840,
            sizeimage: 4_147_200,
            colorspace: 12,
            quantization: 1,
        }
    );
}

#[test]
fn from_undoes_into() {
    let fmt = Format {
        width: 320,
        height: 240,
        field_order: FieldOrder::Alternate,
        fourcc: FourCC::new(b"RGB3"),
        stride: 960,
        size: 230_400,
        colorspace: Colorspace::Rec709,
        quantization: Quantization::Default,
    };
    assert_eq!(Format::from(fmt.into()), fmt);
    assert_eq!(Format::try_from(fmt.into()), Some(fmt));
    assert_eq!(Format::from(yuyv_raw()).into(), yuyv_raw());
    let request = Format::new(640, 480, FourCC::new(b"YUYV"));
    assert_eq!(Format::from(request.into()), request);
}

#[test]
fn try_from_refuses_unknown_numbers() {
    assert!(Format::try_from(yuyv_raw()).is_some());
    let mut raw = yuyv_raw();
    raw.field = 10;
    assert_eq!(Format::try_from(raw), None);
    let mut raw = yuyv_raw();
    raw.colorspace = 4;
    assert_eq!(Format::try_from(raw), None);
    let mut raw = yuyv_raw();
    raw.colorspace = 13;
    assert_eq!(Format::try_from(raw), None);
    let mut raw = yuyv_raw();
    raw.quantization = 3;
    assert_eq!(Format::try_from(raw), None);
}
