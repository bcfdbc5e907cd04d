//! The immutable run description: the metadata read from an opened source,
//! the four-character codec tag decoder, and the options snapshot a run is
//! dispatched with. Later live changes travel only through the control
//! channels, never by re-dispatch.
use vstd::prelude::*;

verus! {

use vstd::string::StrSliceExecFns;
use vstd::string::StringExecFns;
use crate::geometry::FrameDimensions;
use crate::geometry::RotateFlags;
use crate::geometry::SCALE_UNIT;
use crate::media::SourceHandle;
use crate::media::VideoError;
use crate::text::spec_file_name_of;
use crate::text::spec_trim_quotes;
use crate::text::file_name_of;
use crate::text::trim_quotes;

/// The four-character codec code packed into `fourcc_codec`, one byte per
/// character, least significant byte first; zero encodes no code at all.
pub open spec fn spec_decode_fourcc(fourcc_codec: u32) -> Option<(char, char, char, char)> {
    if fourcc_codec == 0 {
        Option::None
    } else {
        Option::Some((
            ((fourcc_codec & 0xFF) as u8) as char,
            (((fourcc_codec >> 8) & 0xFF) as u8) as char,
            (((fourcc_codec >> 16) & 0xFF) as u8) as char,
            (((fourcc_codec >> 24) & 0xFF) as u8) as char,
        ))
    }
}

/// Unpacks a four-character codec code: one byte per character, least
/// significant byte first. Zero means no code is present.
pub fn decode_fourcc(fourcc_codec: u32) -> (r: Option<(char, char, char, char)>)
    ensures
        r == spec_decode_fourcc(fourcc_codec),
        r.is_some() <==> fourcc_codec != 0,
{
    if fourcc_codec == 0 {
        return Option::None;
    }
    let byte0 = (fourcc_codec & 0xFF) as u8;
    let byte1 = ((fourcc_codec >> 8) & 0xFF) as u8;
    let byte2 = ((fourcc_codec >> 16) & 0xFF) as u8;
    let byte3 = ((fourcc_codec >> 24) & 0xFF) as u8;
    Option::Some((byte0 as char, byte1 as char, byte2 as char, byte3 as char))
}

/// The final path component of `file_path`, or `default` when the path has
/// an empty final component.
pub fn get_video_name(file_path: &str, default: &str) -> (r: String)
    ensures
        r@ == (if spec_file_name_of(file_path@).len() == 0 {
            default@
        } else {
            spec_file_name_of(file_path@)
        }),
{
    let name = file_name_of(file_path);
    if name.as_str().unicode_len() == 0 {
        String::from_str(default)
    } else {
        name
    }
}

/// The metadata of an opened source: base frame size, total frame count,
/// decoded codec tag and frame rate.
#[derive(Clone, Copy, Debug)]
pub struct VideoInfo {
    pub frame_size: FrameDimensions,
    pub frame_count: u64,
    pub fourcc_codec: (char, char, char, char),
    pub fps: u32,
}

/// The metadata an opened handle reports.
pub open spec fn spec_info_of(capture: SourceHandle) -> VideoInfo {
    VideoInfo {
        frame_size: capture.frame_size,
        frame_count: capture.frame_count,
        fourcc_codec: spec_decode_fourcc(capture.fourcc_code).unwrap(),
        fps: capture.fps,
    }
}

impl VideoInfo {
    /// Reads the metadata off an opened source handle.
    pub fn new(capture: &SourceHandle) -> (r: Result<VideoInfo, VideoError>)
        requires
            capture.wf(),
        ensures
            r == Result::<VideoInfo, VideoError>::Ok(spec_info_of(*capture)),
    {
        let fourcc_codec = match decode_fourcc(capture.fourcc_code) {
            Option::Some(code) => code,
            Option::None => {
                // unreachable: a well-formed handle carries a nonzero tag
                ((' ', ' ', ' ', ' '))
            },
        };
        Result::Ok(VideoInfo {
            frame_size: capture.frame_size,
            frame_count: capture.frame_count,
            fourcc_codec,
            fps: capture.fps,
        })
    }
}

/// The immutable options snapshot a run is dispatched with. Scale factors
/// are fixed-point values in thousandths; an absent rescale factor means
/// the frames keep their size.
#[derive(Debug)]
pub struct ProcessOptions {
    pub gui_scale: u32,
    pub edit_file_name: String,
    pub flip: Option<RotateFlags>,
    pub should_process: bool,
    pub preview: bool,
    pub re_scale: Option<u32>,
}

impl Default for ProcessOptions {
    /// Preview only, at natural size, with no rotation and no output file.
    fn default() -> (r: Self)
        ensures
            r.gui_scale == SCALE_UNIT,
            r.edit_file_name@.len() == 0,
            r.flip.is_none(),
            !r.should_process,
            r.preview,
            r.re_scale.is_none(),
    {
        ProcessOptions {
            gui_scale: SCALE_UNIT,
            edit_file_name: String::new(),
            flip: Option::None,
            should_process: false,
            preview: true,
            re_scale: Option::None,
        }
    }
}

impl ProcessOptions {
    /// Both scale factors, where given, lie in the accepted range.
    pub open spec fn scales_in_range(self) -> bool {
        &&& 1 <= self.gui_scale <= crate::geometry::MAX_SCALE_MILLI
        &&& match self.re_scale {
            Option::Some(s) => 1 <= s <= crate::geometry::MAX_SCALE_MILLI,
            Option::None => true,
        }
    }

    /// The output path as the sink receives it: surrounding double quotes
    /// removed when the path carries them.
    pub open spec fn spec_edit_path(self) -> Seq<char> {
        if self.edit_file_name@.len() > 0
            && self.edit_file_name@.first() == '"'
            && self.edit_file_name@.last() == '"' {
            spec_trim_quotes(self.edit_file_name@)
        } else {
            self.edit_file_name@
        }
    }

    /// The display name derived from the output path: its final component,
    /// or `default` when that is empty.
    pub open spec fn spec_video_name(self, default: Seq<char>) -> Seq<char> {
        if spec_file_name_of(self.edit_file_name@).len() == 0 {
            default
        } else {
            spec_file_name_of(self.edit_file_name@)
        }
    }

    /// The output path with every surrounding double quote removed, as
    /// pasted paths sometimes carry them.
    pub fn get_edit_path_str(&self) -> (r: String)
        ensures
            r@ == self.spec_edit_path(),
    {
        let path = self.edit_file_name.as_str();
        let len = path.unicode_len();
        if len > 0 && path.get_char(0) == '"' && path.get_char(len - 1) == '"' {
            String::from_str(trim_quotes(path))
        } else {
            String::from_str(path)
        }
    }

    /// The final component of the output path, or `default` when there is
    /// none to show.
    pub fn get_video_name(&self, default: &str) -> (r: String)
        ensures
            r@ == self.spec_video_name(default@),
    {
        get_video_name(self.edit_file_name.as_str(), default)
    }
}

} // verus!
