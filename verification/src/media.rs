//! Models of the media collaborators the pipeline drives: the exclusive
//! frame source, the output sink, the display window, and the frame buffers
//! that flow between them. Each is held as plain data: a frame buffer is
//! represented by its dimensions and the stream position it was decoded
//! from, which is everything the coordination logic reads of it.
use vstd::prelude::*;

verus! {

use vstd::string::StrSliceExecFns;
use crate::geometry::FrameDimensions;
use crate::geometry::MAX_BASE_DIM;

/// Largest accepted number of frames in a stream.
pub const MAX_FRAME_COUNT: u64 = 0x1_0000_0000;

/// A collaborator failure observed mid-stream. It ends the worker loop and
/// is reported once, when the worker is joined.
#[derive(Clone, Copy, Debug, PartialEq, Eq, Structural)]
pub enum VideoError {
    /// The source could not decode the next frame.
    DecodeFailure,
    /// The sink could not append a frame.
    EncodeFailure,
}

/// Progress through the stream: `counter` frames processed of `total`.
/// Emitted every iteration; the consumer's coalescing keeps the latest.
#[derive(Clone, Copy, Debug, PartialEq, Eq, Structural)]
pub struct ProgressValue {
    pub counter: u64,
    pub total: u64,
}

/// A decoded frame buffer, as the coordination logic sees it: its
/// dimensions, and the stream position it came from (`None` for an empty
/// default buffer that no decode has filled).
#[derive(Clone, Copy, Debug, PartialEq, Eq, Structural)]
pub struct FrameData {
    pub size: FrameDimensions,
    pub source_index: Option<u64>,
}

impl FrameData {
    /// An empty buffer: zero-sized, filled by no decode.
    pub fn empty() -> (r: Self)
        ensures
            r == FrameData::spec_empty(),
    {
        FrameData { size: FrameDimensions { width: 0, height: 0 }, source_index: Option::None }
    }

    pub open spec fn spec_empty() -> Self {
        FrameData { size: FrameDimensions { width: 0, height: 0 }, source_index: Option::None }
    }
}

/// What a source is opened from: a named file, or the default capture
/// device. Historically an empty path meant the device; the two cases are
/// kept apart explicitly so that nothing downstream has to test for
/// emptiness.
#[derive(Debug, PartialEq, Eq)]
pub enum SourceLocator {
    NamedSource(String),
    DefaultDevice,
}

impl SourceLocator {
    /// Classifies the path text an interface hands over: empty means the
    /// default capture device, anything else names a file.
    pub fn from_path_text(path: String) -> (r: Self)
        ensures
            path@.len() == 0 ==> r == SourceLocator::DefaultDevice,
            path@.len() > 0 ==> (r == SourceLocator::NamedSource(path)
                && r->NamedSource_0@ == path@),
    {
        if path.as_str().unicode_len() == 0 {
            SourceLocator::DefaultDevice
        } else {
            SourceLocator::NamedSource(path)
        }
    }
}

/// The exclusive, non-cloneable handle to the frame-producing resource.
/// Owned by exactly one side at a time: the facade while idle, the worker
/// while running. `position` counts the frames read so far; `fail_read_at`
/// injects a decode failure at that position, modelling a mid-stream
/// collaborator error.
#[derive(Debug)]
pub struct SourceHandle {
    pub frame_size: FrameDimensions,
    pub frame_count: u64,
    pub fps: u32,
    pub fourcc_code: u32,
    pub position: u64,
    pub fail_read_at: Option<u64>,
}

impl SourceHandle {
    /// Metadata is in range, the codec tag is a real four-character code,
    /// and the read position has not run past the end of the stream.
    pub open spec fn wf(self) -> bool {
        &&& self.frame_size.fits_base()
        &&& self.frame_count <= MAX_FRAME_COUNT
        &&& self.fps >= 1
        &&& self.fourcc_code != 0
        &&& self.position <= self.frame_count
    }

    /// An opened source positioned at the start of its stream.
    pub fn new(frame_size: FrameDimensions, frame_count: u64, fps: u32, fourcc_code: u32, fail_read_at: Option<u64>) -> (r: Self)
        requires
            frame_size.fits_base(),
            frame_count <= MAX_FRAME_COUNT,
            fps >= 1,
            fourcc_code != 0,
        ensures
            r.wf(),
            r.frame_size == frame_size,
            r.frame_count == frame_count,
            r.fps == fps,
            r.fourcc_code == fourcc_code,
            r.position == 0,
            r.fail_read_at == fail_read_at,
    {
        SourceHandle { frame_size, frame_count, fps, fourcc_code, position: 0, fail_read_at }
    }

    /// Whether the next decode will succeed, hit the end of the stream, or
    /// fail.
    pub open spec fn spec_read_result(self) -> Result<bool, VideoError> {
        if self.fail_read_at == Option::Some(self.position) {
            Result::Err(VideoError::DecodeFailure)
        } else if self.position < self.frame_count {
            Result::Ok(true)
        } else {
            Result::Ok(false)
        }
    }

    /// The handle after one decode attempt: the position advances exactly
    /// when a frame was available.
    pub open spec fn spec_after_read(self) -> SourceHandle {
        if self.spec_read_result() == Result::<bool, VideoError>::Ok(true) {
            SourceHandle { position: (self.position + 1) as u64, ..self }
        } else {
            self
        }
    }

    /// The destination buffer after one decode attempt: filled with a frame
    /// of the source's base size exactly when a frame was available, left
    /// untouched otherwise.
    pub open spec fn spec_frame_after_read(self, frame: FrameData) -> FrameData {
        if self.spec_read_result() == Result::<bool, VideoError>::Ok(true) {
            FrameData {
                size: self.frame_size,
                source_index: Option::Some((self.position + 1) as u64),
            }
        } else {
            frame
        }
    }

    /// Decodes the next frame into `frame`. Returns `Ok(true)` and advances
    /// the position while frames remain, `Ok(false)` at end of stream, and a
    /// decode failure where one is injected.
    pub fn read(&mut self, frame: &mut FrameData) -> (r: Result<bool, VideoError>)
        requires
            old(self).wf(),
        ensures
            final(self).wf(),
            r == old(self).spec_read_result(),
            *final(self) == old(self).spec_after_read(),
            *final(frame) == old(self).spec_frame_after_read(*old(frame)),
    {
        match self.fail_read_at {
            Option::Some(fail_position) if fail_position == self.position => {
                Result::Err(VideoError::DecodeFailure)
            },
            _ => {
                if self.position < self.frame_count {
                    self.position = self.position + 1;
                    *frame = FrameData {
                        size: self.frame_size,
                        source_index: Option::Some(self.position),
                    };
                    Result::Ok(true)
                } else {
                    Result::Ok(false)
                }
            },
        }
    }

    /// Repositions the handle at the start of the stream, as done when the
    /// worker hands the source back after a completed run.
    pub fn reset_position(&mut self)
        ensures
            *final(self) == (SourceHandle { position: 0, ..*old(self) }),
    {
        self.position = 0;
    }
}

/// The output sink: an opened encoder that appends frames. The frames it
/// has received are recorded in order; `fail_write_at` injects an encode
/// failure at that frame index.
#[derive(Debug)]
pub struct VideoWriter {
    pub path: String,
    pub fourcc: (char, char, char, char),
    pub fps: u32,
    pub frame_size: FrameDimensions,
    pub frames: Vec<FrameData>,
    pub opened: bool,
    pub fail_write_at: Option<usize>,
}

impl VideoWriter {
    /// Opens a sink for frames of the given size.
    pub fn new(path: String, fourcc: (char, char, char, char), fps: u32, frame_size: FrameDimensions) -> (r: Self)
        ensures
            r.path@ == path@,
            r.fourcc == fourcc,
            r.fps == fps,
            r.frame_size == frame_size,
            r.frames@ == Seq::<FrameData>::empty(),
            r.opened,
            r.fail_write_at.is_none(),
    {
        VideoWriter {
            path,
            fourcc,
            fps,
            frame_size,
            frames: Vec::new(),
            opened: true,
            fail_write_at: Option::None,
        }
    }

    /// Appends one frame, or reports an encode failure where one is
    /// injected.
    pub fn write(&mut self, frame: FrameData) -> (r: Result<(), VideoError>)
        ensures
            final(self).path == old(self).path,
            final(self).fourcc == old(self).fourcc,
            final(self).fps == old(self).fps,
            final(self).frame_size == old(self).frame_size,
            final(self).opened == old(self).opened,
            final(self).fail_write_at == old(self).fail_write_at,
            old(self).fail_write_at == Option::Some(old(self).frames@.len() as usize) ==> (
                r == Result::<(), VideoError>::Err(VideoError::EncodeFailure)
                && *final(self) == *old(self)
            ),
            old(self).fail_write_at != Option::Some(old(self).frames@.len() as usize) ==> (
                r == Result::<(), VideoError>::Ok(())
                && final(self).frames@ == old(self).frames@.push(frame)
            ),
    {
        let next_index = self.frames.len();
        match self.fail_write_at {
            Option::Some(fail_index) if fail_index == next_index => {
                Result::Err(VideoError::EncodeFailure)
            },
            _ => {
                self.frames.push(frame);
                Result::Ok(())
            },
        }
    }

    /// Closes and flushes the sink.
    pub fn release(&mut self)
        ensures
            *final(self) == (VideoWriter { opened: false, ..*old(self) }),
    {
        self.opened = false;
    }
}

/// The display backend's code for a window that sizes itself to its
/// content.
pub const WINDOW_AUTOSIZE: i32 = 1;

/// The display surface: a named window with a current size and the frame it
/// last showed. `open` turns false when the surface is closed, whether by
/// the worker's teardown or externally by the user.
#[derive(Debug)]
pub struct HighGuiWindow {
    pub winname: String,
    pub mode: i32,
    pub open: bool,
    pub size: Option<FrameDimensions>,
    pub shown: Option<FrameData>,
}

impl HighGuiWindow {
    /// Creates the named window.
    pub fn build(winname: String, mode: i32) -> (r: Self)
        ensures
            r.winname@ == winname@,
            r.mode == mode,
            r.open,
            r.size.is_none(),
            r.shown.is_none(),
    {
        HighGuiWindow { winname, mode, open: true, size: Option::None, shown: Option::None }
    }

    /// Pushes a frame to the display.
    pub fn show(&mut self, frame: FrameData)
        ensures
            *final(self) == (HighGuiWindow { shown: Option::Some(frame), ..*old(self) }),
    {
        self.shown = Option::Some(frame);
    }

    /// Resizes the window.
    pub fn resize(&mut self, size: FrameDimensions)
        ensures
            *final(self) == (HighGuiWindow { size: Option::Some(size), ..*old(self) }),
    {
        self.size = Option::Some(size);
    }

    pub fn is_open(&self) -> (r: bool)
        ensures
            r == self.open,
    {
        self.open
    }

    /// Releases the native window; also the model of the user closing it
    /// from outside.
    pub fn close(&mut self)
        ensures
            *final(self) == (HighGuiWindow { open: false, ..*old(self) }),
    {
        self.open = false;
    }
}

} // verus!
