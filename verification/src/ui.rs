//! Controller-side editor state: the output file choice with its derived
//! default path, the rotation radio selection, the play/pause button label,
//! and the displayable stream information rows.
use vstd::prelude::*;

verus! {

use vstd::string::StrSliceExecFns;
use vstd::string::StringExecFns;
use crate::geometry::RotateFlags;
use crate::options::VideoInfo;
use crate::options::get_video_name;
use crate::text::file_name_of;
use crate::text::last_index_of;
use crate::text::spec_file_name_of;
use crate::text::spec_decimal;
use crate::text::u64_to_string;

/// The path component before the last `/`; for a path without one, the
/// empty sequence, except that an empty path falls back to the given
/// default directory.
pub open spec fn spec_parent_of(path: Seq<char>, default_directory: Seq<char>) -> Seq<char> {
    if path.len() == 0 {
        default_directory
    } else if exists|i: int| 0 <= i < path.len() && path[i] == '/' {
        let i = choose|i: int| 0 <= i < path.len() && path[i] == '/'
            && (forall|j: int| i < j < path.len() ==> path[j] != '/');
        path.subrange(0, i)
    } else {
        Seq::empty()
    }
}

/// A file name split at its last `.` into stem and extension; a name
/// without one keeps its stem and gets `no_extension`.
pub open spec fn spec_split_extension(name: Seq<char>) -> (Seq<char>, Seq<char>) {
    if exists|i: int| 0 <= i < name.len() && name[i] == '.' {
        let i = choose|i: int| 0 <= i < name.len() && name[i] == '.'
            && (forall|j: int| i < j < name.len() ==> name[j] != '.');
        (name.subrange(0, i), name.subrange(i + 1, name.len() as int))
    } else {
        (name, "no_extension"@)
    }
}

/// The default output path derived from an input path: the same directory
/// (or the default directory when the input has none), the input's stem
/// with the placeholder appended, and the input's extension.
pub open spec fn spec_default_edit_path(
    path: Seq<char>,
    placer_holder: Seq<char>,
    default_directory: Seq<char>,
) -> Seq<char> {
    let parent = spec_parent_of(path, default_directory);
    let name = spec_file_name_of(path);
    let parts = spec_split_extension(name);
    let stem = if parts.0.len() == 0 { "empty_file_name"@ } else { parts.0 };
    let base = stem + placer_holder + "."@ + parts.1;
    if parent.len() == 0 {
        base
    } else {
        parent + "/"@ + base
    }
}

/// Derives the default output path for `file_name`, appending
/// `placer_holder` to its stem. `default_directory` stands in for the
/// working directory when the input path has no directory part.
pub fn create_default_edit_path(file_name: &str, placer_holder: &str, default_directory: &str) -> (r: String)
    ensures
        r@ == spec_default_edit_path(file_name@, placer_holder@, default_directory@),
{
    let len = file_name.unicode_len();
    let slash = last_index_of(file_name, '/');
    let parent: String = match slash {
        Option::Some(i) => {
            proof {
                let wi = choose|k: int| 0 <= k < file_name@.len() && file_name@[k] == '/'
                    && (forall|j: int| k < j < file_name@.len() ==> file_name@[j] != '/');
                assert(wi == i as int) by {
                    if wi < i as int {
                        assert(file_name@[i as int] == '/');
                    } else if wi > i as int {
                        assert(file_name@[wi] == '/');
                    }
                }
            }
            String::from_str(file_name.substring_char(0, i))
        },
        Option::None => {
            if len == 0 {
                String::from_str(default_directory)
            } else {
                String::new()
            }
        },
    };
    let name = file_name_of(file_name);
    let name_len = name.as_str().unicode_len();
    let dot = last_index_of(name.as_str(), '.');
    let (stem, extension): (String, String) = match dot {
        Option::Some(i) => {
            proof {
                let wi = choose|k: int| 0 <= k < name@.len() && name@[k] == '.'
                    && (forall|j: int| k < j < name@.len() ==> name@[j] != '.');
                assert(wi == i as int) by {
                    if wi < i as int {
                        assert(name@[i as int] == '.');
                    } else if wi > i as int {
                        assert(name@[wi] == '.');
                    }
                }
            }
            (
                String::from_str(name.as_str().substring_char(0, i)),
                String::from_str(name.as_str().substring_char(i + 1, name_len)),
            )
        },
        Option::None => (
            String::from_str(name.as_str()),
            String::from_str("no_extension"),
        ),
    };
    let stem = if stem.as_str().unicode_len() == 0 {
        String::from_str("empty_file_name")
    } else {
        stem
    };
    let mut out: String = String::new();
    if parent.as_str().unicode_len() > 0 {
        out.append(parent.as_str());
        out.append("/");
    }
    out.append(stem.as_str());
    out.append(placer_holder);
    out.append(".");
    out.append(extension.as_str());
    proof {
        assert(out@ =~= spec_default_edit_path(file_name@, placer_holder@, default_directory@));
    }
    out
}

/// The output file the editor writes to: the path, the text buffer it is
/// edited through, and the display name of its final component.
pub struct EditFile {
    pub edit_file_buffer: String,
    pub edit_file_path: String,
    pub edit_file_name: String,
}

/// The display name of an output path: its final component, or the
/// default output name when there is none.
pub open spec fn spec_edit_file_name(path: Seq<char>) -> Seq<char> {
    if spec_file_name_of(path).len() == 0 {
        "edit.mp4"@
    } else {
        spec_file_name_of(path)
    }
}

impl EditFile {
    /// Buffer and display name agree with the path.
    pub open spec fn wf(self) -> bool {
        &&& self.edit_file_buffer@ == self.edit_file_path@
        &&& self.edit_file_name@ == spec_edit_file_name(self.edit_file_path@)
    }

    /// Sets up the default output file derived from an input path;
    /// `default_directory` stands in for the working directory.
    pub fn new(file_path: &str, placer_holder: &str, default_directory: &str) -> (r: Self)
        ensures
            r.wf(),
            r.edit_file_path@ == spec_default_edit_path(file_path@, placer_holder@, default_directory@),
    {
        let edit_file_path = create_default_edit_path(file_path, placer_holder, default_directory);
        let edit_file_buffer = edit_file_path.clone();
        let edit_file_name = get_video_name(edit_file_path.as_str(), "edit.mp4");
        EditFile { edit_file_buffer, edit_file_path, edit_file_name }
    }

    /// The text buffer the interface edits in place.
    pub fn get_buffer(&mut self) -> (r: &mut String)
        ensures
            *r == old(self).edit_file_buffer,
            *final(self) == (EditFile { edit_file_buffer: *final(r), ..*old(self) }),
    {
        &mut self.edit_file_buffer
    }

    pub fn get_path(&self) -> (r: &String)
        ensures
            r == self.edit_file_path,
    {
        &self.edit_file_path
    }

    pub fn get_name(&self) -> (r: &String)
        ensures
            r == self.edit_file_name,
    {
        &self.edit_file_name
    }

    /// Adopts the edited buffer as the new path and refreshes the display
    /// name.
    pub fn update_from_buffer(&mut self)
        ensures
            final(self).wf(),
            final(self).edit_file_path@ == old(self).edit_file_buffer@,
            final(self).edit_file_buffer@ == old(self).edit_file_buffer@,
    {
        self.edit_file_path = self.edit_file_buffer.clone();
        self.edit_file_name = get_video_name(self.edit_file_path.as_str(), "edit.mp4");
    }

    /// Adopts a path chosen elsewhere and refreshes buffer and display
    /// name.
    pub fn update_from_path(&mut self, path: String)
        ensures
            final(self).wf(),
            final(self).edit_file_path@ == path@,
    {
        self.edit_file_buffer = path.clone();
        self.edit_file_path = path;
        self.edit_file_name = get_video_name(self.edit_file_path.as_str(), "edit.mp4");
    }
}

/// The four-position rotation selector of the interface, each position
/// carrying the rotation it stands for.
#[derive(Clone, Copy, Debug, PartialEq, Eq)]
pub enum RotationRadio {
    First(Option<RotateFlags>),
    Second(Option<RotateFlags>),
    Third(Option<RotateFlags>),
    Forth(Option<RotateFlags>),
}

impl RotationRadio {
    pub open spec fn spec_get(self) -> Option<RotateFlags> {
        match self {
            RotationRadio::First(value) => value,
            RotationRadio::Second(value) => value,
            RotationRadio::Third(value) => value,
            RotationRadio::Forth(value) => value,
        }
    }

    /// The rotation the selected position stands for.
    pub fn get(&self) -> (r: Option<RotateFlags>)
        ensures
            r == self.spec_get(),
    {
        match self {
            RotationRadio::First(value) => *value,
            RotationRadio::Second(value) => *value,
            RotationRadio::Third(value) => *value,
            RotationRadio::Forth(value) => *value,
        }
    }
}

/// The play/pause toggle of the interface, carrying its button label.
#[derive(Clone, Copy, Debug, PartialEq, Eq)]
pub enum VideoMode {
    Play(&'static str),
    Pause(&'static str),
}

impl VideoMode {
    pub open spec fn spec_get_name(self) -> &'static str {
        match self {
            VideoMode::Pause(s) => s,
            VideoMode::Play(s) => s,
        }
    }

    /// The label the toggle shows.
    pub fn get_name(&self) -> (r: &'static str)
        ensures
            r == self.spec_get_name(),
    {
        match self {
            VideoMode::Pause(s) => s,
            VideoMode::Play(s) => s,
        }
    }
}

/// The printable characters a codec tag row can show.
pub open spec fn spec_ascii_table() -> Seq<char> {
    " !\"#$%&'()*+,-./0123456789:;<=>?@ABCDEFGHIJKLMNOPQRSTUVWXYZ[\\]^_`abcdefghijklmnopqrstuvwxyz{|}~"@
}

/// One character as a displayable string: itself when printable, a
/// question mark otherwise.
pub open spec fn spec_display_char(c: char) -> Seq<char> {
    if spec_ascii_table().contains(c) {
        seq![c]
    } else {
        seq!['?']
    }
}

/// Renders one character for display, replacing unprintable ones.
fn display_char(c: char) -> (r: String)
    ensures
        r@ == spec_display_char(c),
{
    let table = " !\"#$%&'()*+,-./0123456789:;<=>?@ABCDEFGHIJKLMNOPQRSTUVWXYZ[\\]^_`abcdefghijklmnopqrstuvwxyz{|}~";
    proof {
        reveal_strlit(" !\"#$%&'()*+,-./0123456789:;<=>?@ABCDEFGHIJKLMNOPQRSTUVWXYZ[\\]^_`abcdefghijklmnopqrstuvwxyz{|}~");
        reveal_strlit("?");
    }
    let len = table.unicode_len();
    let mut i: usize = 0;
    while i < len
        invariant
            len == spec_ascii_table().len(),
            table@ == spec_ascii_table(),
            i <= len,
            forall|j: int| 0 <= j < i ==> spec_ascii_table()[j] != c,
        decreases len - i,
    {
        if table.get_char(i) == c {
            let found = table.substring_char(i, i + 1);
            proof {
                assert(found@ =~= seq![c]);
                assert(spec_ascii_table().contains(c)) by {
                    assert(spec_ascii_table()[i as int] == c);
                }
            }
            return String::from_str(found);
        }
        i = i + 1;
    }
    proof {
        assert(!spec_ascii_table().contains(c)) by {
            if spec_ascii_table().contains(c) {
                let k = choose|k: int| 0 <= k < spec_ascii_table().len()
                    && spec_ascii_table()[k] == c;
                assert(spec_ascii_table()[k] != c);
            }
        }
    }
    String::from_str("?")
}

/// The five information rows: file name, frame size, codec tag, frame
/// rate, duration.
pub open spec fn spec_info_rows(file_path: Seq<char>, info: VideoInfo) -> Seq<Seq<char>> {
    let name = if spec_file_name_of(file_path).len() == 0 {
        "Video Capture"@
    } else {
        spec_file_name_of(file_path)
    };
    let size_row = spec_decimal(info.frame_size.width as nat) + "x"@
        + spec_decimal(info.frame_size.height as nat);
    let fourcc_row = spec_display_char(info.fourcc_codec.0) + spec_display_char(info.fourcc_codec.1)
        + spec_display_char(info.fourcc_codec.2) + spec_display_char(info.fourcc_codec.3);
    let fps_row = spec_decimal(info.fps as nat);
    let total_secs = (info.frame_count / (info.fps as u64)) as nat;
    let duration_row = spec_decimal(total_secs / 60) + "min "@ + spec_decimal(total_secs % 60)
        + "s"@;
    seq![name, size_row, fourcc_row, fps_row, duration_row]
}

/// The displayable stream information of the interface: whether any is
/// available, and the five rendered rows.
#[derive(Debug)]
pub struct VidInfoGui {
    pub has_some_info: bool,
    pub vid_info_result: Vec<String>,
}

impl VidInfoGui {
    pub open spec fn wf(self) -> bool {
        self.vid_info_result@.len() == 5
    }

    /// Re-renders the rows from the given metadata; with none available,
    /// only the availability flag changes and stale rows remain.
    pub fn try_update(&mut self, file_path: &str, infos: &Option<VideoInfo>)
        requires
            old(self).wf(),
            match *infos {
                Option::Some(info) => info.fps >= 1,
                Option::None => true,
            },
        ensures
            final(self).wf(),
            final(self).has_some_info == infos.is_some(),
            match *infos {
                Option::Some(info) => {
                    forall|i: int| 0 <= i < 5
                        ==> #[trigger] final(self).vid_info_result@[i]@
                            == spec_info_rows(file_path@, info)[i]
                },
                Option::None => final(self).vid_info_result@ == old(self).vid_info_result@,
            },
    {
        self.has_some_info = infos.is_some();
        if let Option::Some(info) = infos {
            let name_row = get_video_name(file_path, "Video Capture");

            let mut size_row = u64_to_string(info.frame_size.width as u64);
            size_row.append("x");
            let height_digits = u64_to_string(info.frame_size.height as u64);
            size_row.append(height_digits.as_str());

            let mut fourcc_row = display_char(info.fourcc_codec.0);
            let fourcc1 = display_char(info.fourcc_codec.1);
            let fourcc2 = display_char(info.fourcc_codec.2);
            let fourcc3 = display_char(info.fourcc_codec.3);
            fourcc_row.append(fourcc1.as_str());
            fourcc_row.append(fourcc2.as_str());
            fourcc_row.append(fourcc3.as_str());

            let fps_row = u64_to_string(info.fps as u64);

            let total_secs = info.frame_count / (info.fps as u64);
            let mut duration_row = u64_to_string(total_secs / 60);
            duration_row.append("min ");
            let seconds_digits = u64_to_string(total_secs % 60);
            duration_row.append(seconds_digits.as_str());
            duration_row.append("s");

            proof {
                reveal_strlit("x");
                reveal_strlit("min ");
                reveal_strlit("s");
                reveal_strlit("Video Capture");
            }
            let rows = vec![name_row, size_row, fourcc_row, fps_row, duration_row];
            self.vid_info_result = rows;
        }
    }

    /// One rendered row, for the surface that lays them out.
    pub fn get_row(&self, i: usize) -> (r: &String)
        requires
            self.wf(),
            i < 5,
        ensures
            r == self.vid_info_result@[i as int],
    {
        &self.vid_info_result[i]
    }
}

impl Default for VidInfoGui {
    /// No information yet: five empty rows.
    fn default() -> (r: Self)
        ensures
            r.wf(),
            !r.has_some_info,
    {
        let rows = vec![
            String::new(),
            String::new(),
            String::new(),
            String::new(),
            String::new(),
        ];
        VidInfoGui { has_some_info: false, vid_info_result: rows }
    }
}

} // verus!
