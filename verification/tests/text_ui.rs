use video_processor::geometry::FrameDimensions;
use video_processor::options::ProcessOptions;
use video_processor::options::VideoInfo;
use video_processor::options::get_video_name;
use video_processor::text::file_name_of;
use video_processor::text::trim_quotes;
use video_processor::text::u64_to_string;
use video_processor::ui::EditFile;
use video_processor::ui::RotationRadio;
use video_processor::ui::VideoMode;
use video_processor::ui::VidInfoGui;
use video_processor::ui::create_default_edit_path;
use video_processor::geometry::RotateFlags;

#[test]
fn decimal_rendering() {
    assert_eq!(u64_to_string(0), String::from("0"));
    assert_eq!(u64_to_string(7), String::from("7"));
    assert_eq!(u64_to_string(30), String::from("30"));
    assert_eq!(u64_to_string(1080), String::from("1080"));
    assert_eq!(u64_to_string(18446744073709551615), String::from("18446744073709551615"));
}

#[test]
fn file_names_come_after_the_last_slash() {
    assert_eq!(file_name_of("videos/clip.mp4"), String::from("clip.mp4"));
    assert_eq!(file_name_of("a/b/c.mov"), String::from("c.mov"));
    assert_eq!(file_name_of("clip.mp4"), String::from("clip.mp4"));
    assert_eq!(file_name_of("videos/"), String::from(""));
    assert_eq!(file_name_of(""), String::from(""));
}

#[test]
fn video_name_falls_back_on_empty_components() {
    assert_eq!(get_video_name("videos/clip.mp4", "Video Capture"), String::from("clip.mp4"));
    assert_eq!(get_video_name("", "Video Capture"), String::from("Video Capture"));
    assert_eq!(get_video_name("videos/", "Video Capture"), String::from("Video Capture"));
}

#[test]
fn quote_trimming() {
    assert_eq!(trim_quotes("\"a/b.mp4\""), "a/b.mp4");
    assert_eq!(trim_quotes("\"\"x\"\""), "x");
    assert_eq!(trim_quotes("plain"), "plain");
    assert_eq!(trim_quotes("\"\""), "");
}

#[test]
fn edit_path_strips_surrounding_quotes_only() {
    let quoted = ProcessOptions {
        edit_file_name: String::from("\"out dir/out.mp4\""),
        ..ProcessOptions::default()
    };
    assert_eq!(quoted.get_edit_path_str(), String::from("out dir/out.mp4"));
    let half = ProcessOptions {
        edit_file_name: String::from("\"out.mp4"),
        ..ProcessOptions::default()
    };
    assert_eq!(half.get_edit_path_str(), String::from("\"out.mp4"));
}

#[test]
fn default_edit_path_derivation() {
    assert_eq!(
        create_default_edit_path("videos/clip.mp4", "_edit", "/work"),
        String::from("videos/clip_edit.mp4")
    );
    assert_eq!(
        create_default_edit_path("clip.mp4", "_edit", "/work"),
        String::from("clip_edit.mp4")
    );
    assert_eq!(
        create_default_edit_path("videos/clip", "_edit", "/work"),
        String::from("videos/clip_edit.no_extension")
    );
    assert_eq!(
        create_default_edit_path("", "_edit", "/work"),
        String::from("/work/empty_file_name_edit.no_extension")
    );
}

#[test]
fn edit_file_keeps_buffer_path_and_name_in_step() {
    let mut edit = EditFile::new("videos/clip.mp4", "_edit", "/work");
    assert_eq!(edit.get_path(), &String::from("videos/clip_edit.mp4"));
    assert_eq!(edit.get_name(), &String::from("clip_edit.mp4"));
    assert_eq!(edit.get_buffer(), &mut String::from("videos/clip_edit.mp4"));

    edit.get_buffer().push_str("ateria/other.avi");
    edit.update_from_buffer();
    assert_eq!(edit.get_path(), &String::from("videos/clip_edit.mp4ateria/other.avi"));
    assert_eq!(edit.get_name(), &String::from("other.avi"));

    edit.update_from_path(String::from("final/cut.mp4"));
    assert_eq!(edit.get_buffer(), &mut String::from("final/cut.mp4"));
    assert_eq!(edit.get_name(), &String::from("cut.mp4"));
}

#[test]
fn rotation_radio_reports_its_choice() {
    assert_eq!(RotationRadio::First(None).get(), None);
    assert_eq!(
        RotationRadio::Second(Some(RotateFlags::Rotate180)).get(),
        Some(RotateFlags::Rotate180)
    );
    assert_eq!(
        RotationRadio::Third(Some(RotateFlags::Rotate90Clockwise)).get(),
        Some(RotateFlags::Rotate90Clockwise)
    );
    assert_eq!(
        RotationRadio::Forth(Some(RotateFlags::Rotate90CounterClockwise)).get(),
        Some(RotateFlags::Rotate90CounterClockwise)
    );
}

#[test]
fn video_mode_reports_its_label() {
    assert_eq!(VideoMode::Play("Play").get_name(), "Play");
    assert_eq!(VideoMode::Pause("Pause").get_name(), "Pause");
}

#[test]
fn info_rows_render_the_stream_metadata() {
    let info = VideoInfo {
        frame_size: FrameDimensions { width: 640, height: 480 },
        frame_count: 6000,
        fourcc_codec: ('m', 'p', '4', 'v'),
        fps: 30,
    };
    let mut gui = VidInfoGui::default();
    assert!(!gui.has_some_info);
    gui.try_update("videos/clip.mp4", &Some(info));
    assert!(gui.has_some_info);
    assert_eq!(gui.get_row(0), &String::from("clip.mp4"));
    assert_eq!(gui.get_row(1), &String::from("640x480"));
    assert_eq!(gui.get_row(2), &String::from("mp4v"));
    assert_eq!(gui.get_row(3), &String::from("30"));
    // 6000 frames at 30 frames per second: 200 seconds
    assert_eq!(gui.get_row(4), &String::from("3min 20s"));
}

#[test]
fn info_rows_replace_unprintable_tag_characters() {
    let info = VideoInfo {
        frame_size: FrameDimensions { width: 16, height: 16 },
        frame_count: 30,
        fourcc_codec: ('a', 'v', 'c', '\u{1}'),
        fps: 30,
    };
    let mut gui = VidInfoGui::default();
    gui.try_update("x.mp4", &Some(info));
    assert_eq!(gui.get_row(2), &String::from("avc?"));
}

#[test]
fn info_rows_keep_stale_text_without_metadata() {
    let info = VideoInfo {
        frame_size: FrameDimensions { width: 640, height: 480 },
        frame_count: 30,
        fourcc_codec: ('m', 'p', '4', 'v'),
        fps: 30,
    };
    let mut gui = VidInfoGui::default();
    gui.try_update("videos/clip.mp4", &Some(info));
    gui.try_update("videos/clip.mp4", &None);
    assert!(!gui.has_some_info);
    // the rows keep their last rendering; only the flag flips
    assert_eq!(gui.get_row(1), &String::from("640x480"));
}
