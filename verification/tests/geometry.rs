use video_processor::geometry::FrameDimensions;
use video_processor::geometry::FrameSizeManager;
use video_processor::geometry::OpenCvRotationCode;
use video_processor::geometry::RotateFlags;
use video_processor::options::decode_fourcc;

fn preview_of(
    base: (u32, u32),
    rotation: Option<RotateFlags>,
    rescale_milli: u32,
    gui_milli: u32,
) -> (u32, u32) {
    let m = FrameSizeManager::new(
        FrameDimensions { width: base.0, height: base.1 },
        rotation,
        gui_milli,
        rescale_milli,
    );
    let p = m.get_preview();
    (p.width, p.height)
}

fn expected_preview(
    base: (u32, u32),
    rotation: Option<RotateFlags>,
    rescale_milli: u32,
    gui_milli: u32,
) -> (u32, u32) {
    let scale = |len: u32, milli: u32| ((len as u64 * milli as u64) / 1000) as u32;
    let rescaled = (scale(base.0, rescale_milli), scale(base.1, rescale_milli));
    let swaps = match rotation {
        None => false,
        Some(RotateFlags::Rotate180) => false,
        Some(_) => true,
    };
    let rotated = if swaps { (rescaled.1, rescaled.0) } else { rescaled };
    (scale(rotated.0, gui_milli), scale(rotated.1, gui_milli))
}

#[test]
fn preview_size_formula_over_the_grid() {
    let rotations = [
        None,
        Some(RotateFlags::Rotate90Clockwise),
        Some(RotateFlags::Rotate90CounterClockwise),
        Some(RotateFlags::Rotate180),
    ];
    let rescales = [250u32, 500, 1000, 2000];
    let gui_scales = [250u32, 1000, 2000];
    for rotation in rotations {
        for rescale in rescales {
            for gui in gui_scales {
                assert_eq!(
                    preview_of((640, 480), rotation, rescale, gui),
                    expected_preview((640, 480), rotation, rescale, gui),
                    "rotation {:?} rescale {} gui {}",
                    rotation,
                    rescale,
                    gui
                );
            }
        }
    }
}

#[test]
fn preview_size_exact_values() {
    // half size, quarter turn, natural gui scale
    assert_eq!(
        preview_of((640, 480), Some(RotateFlags::Rotate90Clockwise), 500, 1000),
        (240, 320)
    );
    // half turn never swaps
    assert_eq!(
        preview_of((640, 480), Some(RotateFlags::Rotate180), 500, 1000),
        (320, 240)
    );
    // gui scale shrinks only the preview
    assert_eq!(preview_of((640, 480), None, 1000, 250), (160, 120));
    // double size
    assert_eq!(preview_of((640, 480), None, 2000, 2000), (2560, 1920));
}

#[test]
fn edit_size_ignores_gui_scale() {
    let m = FrameSizeManager::new(
        FrameDimensions { width: 640, height: 480 },
        Some(RotateFlags::Rotate90CounterClockwise),
        250,
        500,
    );
    let edit = m.get_edit();
    assert_eq!((edit.width, edit.height), (240, 320));
    let p = m.get_preview();
    assert_eq!((p.width, p.height), (60, 80));
}

#[test]
fn set_gui_scale_is_idempotent() {
    let mut once = FrameSizeManager::new(
        FrameDimensions { width: 640, height: 480 },
        Some(RotateFlags::Rotate90Clockwise),
        1000,
        500,
    );
    once.resize_gui(750);
    let first = once.get_preview();
    once.resize_gui(750);
    let second = once.get_preview();
    assert_eq!(first, second);
    assert_eq!(once.gui_scale, 750);
}

#[test]
fn updates_recompute_derived_sizes() {
    let mut m = FrameSizeManager::new(
        FrameDimensions { width: 640, height: 480 },
        None,
        1000,
        1000,
    );
    assert_eq!(m.get_preview(), FrameDimensions { width: 640, height: 480 });
    m.resize_frame(500);
    assert_eq!(m.get_edit(), FrameDimensions { width: 320, height: 240 });
    m.rotate(Some(RotateFlags::Rotate90Clockwise));
    assert_eq!(m.get_edit(), FrameDimensions { width: 240, height: 320 });
    assert_eq!(m.get_rotation(), Some(RotateFlags::Rotate90Clockwise));
    m.resize_gui(2000);
    assert_eq!(m.get_preview(), FrameDimensions { width: 480, height: 640 });
}

#[test]
fn truncating_fixed_point_scaling() {
    // 3 * 0.5 truncates to 1, as integer fixed-point scaling does
    assert_eq!(preview_of((3, 5), None, 500, 1000), (1, 2));
}

#[test]
fn largest_accepted_size_and_scale_stay_exact() {
    // the largest base dimension scaled by the largest factor, twice over
    let m = FrameSizeManager::new(
        FrameDimensions { width: 0x10_0000, height: 0x10_0000 },
        Some(RotateFlags::Rotate90Clockwise),
        16000,
        16000,
    );
    assert_eq!(m.get_edit(), FrameDimensions { width: 0x100_0000, height: 0x100_0000 });
    assert_eq!(m.get_preview(), FrameDimensions { width: 0x1000_0000, height: 0x1000_0000 });
}

#[test]
fn rotation_codes_match_the_backend() {
    assert_eq!(RotateFlags::Rotate90Clockwise.code(), 0);
    assert_eq!(RotateFlags::Rotate180.code(), 1);
    assert_eq!(RotateFlags::Rotate90CounterClockwise.code(), 2);
}

#[test]
fn decode_fourcc_unpacks_bytes() {
    assert_eq!(decode_fourcc(0x7634706d), Some(('m', 'p', '4', 'v')));
    assert_eq!(decode_fourcc(0x31637661), Some(('a', 'v', 'c', '1')));
}

#[test]
fn decode_fourcc_rejects_zero() {
    assert_eq!(decode_fourcc(0), None);
}
