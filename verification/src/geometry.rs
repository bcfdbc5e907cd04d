//! Frame geometry: rotation flags and the size manager that derives the
//! rescaled, rotated and preview dimensions from a base frame size and the
//! three adjustable parameters (rescale factor, rotation, gui scale).
//!
//! Scale factors are fixed-point values in thousandths, so a factor of
//! `1000` means "unchanged", `500` means "half size" and `2000` means
//! "double size". A scaled length is the truncated quotient
//! `len * factor / 1000`.
use vstd::prelude::*;

verus! {

use vstd::arithmetic::div_mod::lemma_div_is_ordered;
use vstd::arithmetic::mul::lemma_mul_upper_bound;
use crate::channels::AsyncChannels;
use crate::channels::latest_of;
use crate::channels::unchanged_but_flip;
use crate::channels::unchanged_but_gui_size;
use crate::channels::unchanged_but_rescale;

/// A scale factor of exactly one (factors are in thousandths).
pub const SCALE_UNIT: u32 = 1000;

/// Largest accepted scale factor, sixteen times the original size.
pub const MAX_SCALE_MILLI: u32 = 16000;

/// Largest accepted base frame dimension.
pub const MAX_BASE_DIM: u32 = 0x10_0000;

/// Largest dimension a rescaled frame can reach
/// (`MAX_BASE_DIM * MAX_SCALE_MILLI / SCALE_UNIT`).
pub const MAX_EDIT_DIM: u32 = 0x100_0000;

/// The rotations a frame can undergo, mirroring the rotation codes of the
/// underlying imaging backend.
#[derive(Clone, Copy, Debug, PartialEq, Eq, Structural)]
pub enum RotateFlags {
    Rotate90Clockwise,
    Rotate180,
    Rotate90CounterClockwise,
}

/// Integer rotation code used by the imaging backend for each rotation.
pub trait OpenCvRotationCode {
    spec fn spec_code(&self) -> i32;

    fn code(&self) -> (r: i32)
        ensures
            r == self.spec_code(),
    ;
}

impl OpenCvRotationCode for RotateFlags {
    open spec fn spec_code(&self) -> i32 {
        match *self {
            RotateFlags::Rotate90Clockwise => 0,
            RotateFlags::Rotate180 => 1,
            RotateFlags::Rotate90CounterClockwise => 2,
        }
    }

    fn code(&self) -> (r: i32) {
        match *self {
            RotateFlags::Rotate90Clockwise => 0,
            RotateFlags::Rotate180 => 1,
            RotateFlags::Rotate90CounterClockwise => 2,
        }
    }
}

/// A width/height pair.
#[derive(Clone, Copy, Debug, PartialEq, Eq, Structural)]
pub struct FrameDimensions {
    pub width: u32,
    pub height: u32,
}

/// Whether a rotation exchanges width and height: a half turn keeps both,
/// any quarter turn swaps them, no rotation keeps them.
pub open spec fn rotation_swaps_dimensions(rotation: Option<RotateFlags>) -> bool {
    match rotation {
        Option::Some(RotateFlags::Rotate180) => false,
        Option::Some(_) => true,
        Option::None => false,
    }
}

/// Length `len` scaled by a fixed-point factor in thousandths, truncated.
pub open spec fn scaled(len: int, scale_milli: int) -> int {
    (len * scale_milli) / (SCALE_UNIT as int)
}

/// Dimensions after a rotation: swapped for quarter turns, kept otherwise.
pub open spec fn spec_rotated(d: FrameDimensions, rotation: Option<RotateFlags>) -> FrameDimensions {
    if rotation_swaps_dimensions(rotation) {
        FrameDimensions { width: d.height, height: d.width }
    } else {
        d
    }
}

/// A scaled length is bounded by the scaled bounds of its inputs.
pub proof fn lemma_scaled_bounds(len: int, scale_milli: int, len_max: int, scale_max: int)
    requires
        0 <= len <= len_max,
        0 <= scale_milli <= scale_max,
    ensures
        0 <= scaled(len, scale_milli) <= (len_max * scale_max) / (SCALE_UNIT as int),
{
    lemma_mul_upper_bound(len, len_max, scale_milli, scale_max);
    lemma_div_is_ordered(len * scale_milli, len_max * scale_max, SCALE_UNIT as int);
    assert(len * scale_milli >= 0) by (nonlinear_arith)
        requires len >= 0, scale_milli >= 0;
    lemma_div_is_ordered(0, len * scale_milli, SCALE_UNIT as int);
}

impl FrameDimensions {
    /// Both dimensions are within the accepted base range.
    pub open spec fn fits_base(self) -> bool {
        self.width <= MAX_BASE_DIM && self.height <= MAX_BASE_DIM
    }

    /// Both dimensions are within the range a rescaled frame can reach.
    pub open spec fn fits_edit(self) -> bool {
        self.width <= MAX_EDIT_DIM && self.height <= MAX_EDIT_DIM
    }

    /// These dimensions scaled by `scale_milli` thousandths.
    pub fn get_resized(&self, scale_milli: u32) -> (r: Self)
        requires
            self.fits_edit(),
            scale_milli <= MAX_SCALE_MILLI,
        ensures
            r.width == scaled(self.width as int, scale_milli as int),
            r.height == scaled(self.height as int, scale_milli as int),
    {
        let width = scale_len(self.width, scale_milli);
        let height = scale_len(self.height, scale_milli);
        FrameDimensions { width, height }
    }

    /// These dimensions after a rotation: quarter turns swap them.
    pub fn get_rotated(&self, rotation: Option<RotateFlags>) -> (r: Self)
        ensures
            r == spec_rotated(*self, rotation),
    {
        match rotation {
            Option::Some(RotateFlags::Rotate180) => *self,
            Option::Some(_) => FrameDimensions { width: self.height, height: self.width },
            Option::None => *self,
        }
    }
}

/// Derives every frame size the pipeline needs from the base frame size and
/// the three adjustable parameters. The derived sizes are kept in sync with
/// the inputs at all times: `wf` states that they are exactly what
/// recomputation from the four inputs would give.
#[derive(Debug)]
pub struct FrameSizeManager {
    pub frame_size: FrameDimensions,
    pub rescaled_frame_size: FrameDimensions,
    pub rotated_rescaled_frame_size: FrameDimensions,
    pub preview_frame_size: FrameDimensions,
    pub gui_scale: u32,
    pub re_scale: u32,
    pub rotation: Option<RotateFlags>,
}

impl FrameSizeManager {
    /// The derived sizes are recomputable purely from the four inputs, and
    /// all parameters are within their accepted ranges.
    pub open spec fn wf(self) -> bool {
        &&& self.frame_size.fits_base()
        &&& 1 <= self.re_scale <= MAX_SCALE_MILLI
        &&& 1 <= self.gui_scale <= MAX_SCALE_MILLI
        &&& self.rescaled_frame_size.width == scaled(self.frame_size.width as int, self.re_scale as int)
        &&& self.rescaled_frame_size.height == scaled(self.frame_size.height as int, self.re_scale as int)
        &&& self.rotated_rescaled_frame_size == spec_rotated(self.rescaled_frame_size, self.rotation)
        &&& self.preview_frame_size.width == scaled(self.rotated_rescaled_frame_size.width as int, self.gui_scale as int)
        &&& self.preview_frame_size.height == scaled(self.rotated_rescaled_frame_size.height as int, self.gui_scale as int)
    }

    /// The rescaled size of a well-formed manager stays within the edit range.
    pub proof fn lemma_rescaled_fits_edit(self)
        requires
            self.wf(),
        ensures
            self.rescaled_frame_size.fits_edit(),
            self.rotated_rescaled_frame_size.fits_edit(),
    {
        lemma_scaled_bounds(self.frame_size.width as int, self.re_scale as int,
            MAX_BASE_DIM as int, MAX_SCALE_MILLI as int);
        lemma_scaled_bounds(self.frame_size.height as int, self.re_scale as int,
            MAX_BASE_DIM as int, MAX_SCALE_MILLI as int);
    }

    pub fn new(frame_size: FrameDimensions, rotation: Option<RotateFlags>, gui_scale: u32, re_scale: u32) -> (r: Self)
        requires
            frame_size.fits_base(),
            1 <= gui_scale <= MAX_SCALE_MILLI,
            1 <= re_scale <= MAX_SCALE_MILLI,
        ensures
            r.wf(),
            r.frame_size == frame_size,
            r.rotation == rotation,
            r.gui_scale == gui_scale,
            r.re_scale == re_scale,
    {
        let mut new_sizes = FrameSizeManager {
            frame_size,
            rescaled_frame_size: frame_size,
            rotated_rescaled_frame_size: frame_size,
            preview_frame_size: frame_size,
            gui_scale,
            re_scale,
            rotation,
        };
        new_sizes.resize_frame(re_scale);
        new_sizes
    }

    /// Installs a new rescale factor and re-derives every dependent size.
    pub fn resize_frame(&mut self, new_rescale: u32)
        requires
            old(self).frame_size.fits_base(),
            1 <= old(self).gui_scale <= MAX_SCALE_MILLI,
            1 <= new_rescale <= MAX_SCALE_MILLI,
        ensures
            final(self).wf(),
            final(self).frame_size == old(self).frame_size,
            final(self).gui_scale == old(self).gui_scale,
            final(self).rotation == old(self).rotation,
            final(self).re_scale == new_rescale,
            *final(self) == spec_resize_frame(*old(self), new_rescale),
    {
        proof {
            lemma_scaled_bounds(self.frame_size.width as int, new_rescale as int,
                MAX_BASE_DIM as int, MAX_SCALE_MILLI as int);
            lemma_scaled_bounds(self.frame_size.height as int, new_rescale as int,
                MAX_BASE_DIM as int, MAX_SCALE_MILLI as int);
        }
        self.re_scale = new_rescale;
        self.rescaled_frame_size = self.frame_size.get_resized(self.re_scale);
        let rotation = self.rotation;
        self.rotate(rotation);
    }

    /// Installs a new rotation and re-derives the rotated and preview sizes
    /// from the current rescaled size.
    pub fn rotate(&mut self, flip: Option<RotateFlags>)
        requires
            old(self).rescaled_frame_size.fits_edit(),
            1 <= old(self).gui_scale <= MAX_SCALE_MILLI,
        ensures
            final(self).rotation == flip,
            final(self).rotated_rescaled_frame_size == spec_rotated(old(self).rescaled_frame_size, flip),
            final(self).preview_frame_size.width
                == scaled(final(self).rotated_rescaled_frame_size.width as int, old(self).gui_scale as int),
            final(self).preview_frame_size.height
                == scaled(final(self).rotated_rescaled_frame_size.height as int, old(self).gui_scale as int),
            final(self).frame_size == old(self).frame_size,
            final(self).rescaled_frame_size == old(self).rescaled_frame_size,
            final(self).gui_scale == old(self).gui_scale,
            final(self).re_scale == old(self).re_scale,
            old(self).wf() ==> final(self).wf(),
            *final(self) == spec_rotate(*old(self), flip),
    {
        proof {
            let rotated = spec_rotated(self.rescaled_frame_size, flip);
            lemma_scaled_bounds(rotated.width as int, self.gui_scale as int,
                MAX_EDIT_DIM as int, MAX_SCALE_MILLI as int);
            lemma_scaled_bounds(rotated.height as int, self.gui_scale as int,
                MAX_EDIT_DIM as int, MAX_SCALE_MILLI as int);
        }
        self.rotation = flip;
        self.rotated_rescaled_frame_size = self.rescaled_frame_size.get_rotated(flip);
        self.preview_frame_size = self.rotated_rescaled_frame_size.get_resized(self.gui_scale);
    }

    /// Installs a new gui scale and re-derives only the preview size from the
    /// current rotated size.
    pub fn resize_gui(&mut self, new_gui_scale: u32)
        requires
            old(self).rotated_rescaled_frame_size.fits_edit(),
            1 <= new_gui_scale <= MAX_SCALE_MILLI,
        ensures
            final(self).gui_scale == new_gui_scale,
            final(self).preview_frame_size.width
                == scaled(old(self).rotated_rescaled_frame_size.width as int, new_gui_scale as int),
            final(self).preview_frame_size.height
                == scaled(old(self).rotated_rescaled_frame_size.height as int, new_gui_scale as int),
            final(self).frame_size == old(self).frame_size,
            final(self).rescaled_frame_size == old(self).rescaled_frame_size,
            final(self).rotated_rescaled_frame_size == old(self).rotated_rescaled_frame_size,
            final(self).rotation == old(self).rotation,
            final(self).re_scale == old(self).re_scale,
            old(self).wf() ==> final(self).wf(),
            *final(self) == spec_resize_gui(*old(self), new_gui_scale),
    {
        proof {
            lemma_scaled_bounds(self.rotated_rescaled_frame_size.width as int, new_gui_scale as int,
                MAX_EDIT_DIM as int, MAX_SCALE_MILLI as int);
            lemma_scaled_bounds(self.rotated_rescaled_frame_size.height as int, new_gui_scale as int,
                MAX_EDIT_DIM as int, MAX_SCALE_MILLI as int);
        }
        self.gui_scale = new_gui_scale;
        self.preview_frame_size = self.rotated_rescaled_frame_size.get_resized(new_gui_scale);
    }

    pub fn get_preview(&self) -> (r: FrameDimensions)
        ensures
            r == self.preview_frame_size,
    {
        self.preview_frame_size
    }

    pub fn get_edit(&self) -> (r: FrameDimensions)
        ensures
            r == self.rotated_rescaled_frame_size,
    {
        self.rotated_rescaled_frame_size
    }

    pub fn get_rotation(&self) -> (r: Option<RotateFlags>)
        ensures
            r == self.rotation,
    {
        self.rotation
    }

    /// Polls the gui scale channel; when a value arrived, installs the
    /// latest one and reports that something changed.
    pub fn update_gui_size(&mut self, worker_channels: &mut AsyncChannels) -> (r: bool)
        requires
            old(self).wf(),
            old(worker_channels).scales_in_range(),
        ensures
            final(self).wf(),
            final(worker_channels).scales_in_range(),
            unchanged_but_gui_size(*old(worker_channels), *final(worker_channels)),
            final(worker_channels).gui_size.buffered@ == Seq::<u32>::empty(),
            r == latest_of(old(worker_channels).gui_size.buffered@).is_some(),
            r ==> *final(self) == spec_resize_gui(
                *old(self),
                latest_of(old(worker_channels).gui_size.buffered@).unwrap(),
            ),
            !r ==> *final(self) == *old(self),
    {
        proof {
            self.lemma_rescaled_fits_edit();
        }
        if let Option::Some(new_gui_scale) = worker_channels.get_last_size_update() {
            self.resize_gui(new_gui_scale);
            true
        } else {
            false
        }
    }

    /// Polls the rotation channel; when a value arrived, installs the
    /// latest one and reports that something changed.
    pub fn update_flip(&mut self, worker_channels: &mut AsyncChannels) -> (r: bool)
        requires
            old(self).wf(),
        ensures
            final(self).wf(),
            unchanged_but_flip(*old(worker_channels), *final(worker_channels)),
            final(worker_channels).flip.buffered@ == Seq::<Option<RotateFlags>>::empty(),
            r == latest_of(old(worker_channels).flip.buffered@).is_some(),
            r ==> *final(self) == spec_rotate(
                *old(self),
                latest_of(old(worker_channels).flip.buffered@).unwrap(),
            ),
            !r ==> *final(self) == *old(self),
    {
        proof {
            self.lemma_rescaled_fits_edit();
        }
        if let Option::Some(new_flip) = worker_channels.get_updated_flip() {
            self.rotate(new_flip);
            true
        } else {
            false
        }
    }

    /// Polls the rescale channel; when a value arrived, installs the latest
    /// one and reports that something changed.
    pub fn update_rescale(&mut self, worker_channels: &mut AsyncChannels) -> (r: bool)
        requires
            old(self).wf(),
            old(worker_channels).scales_in_range(),
        ensures
            final(self).wf(),
            final(worker_channels).scales_in_range(),
            unchanged_but_rescale(*old(worker_channels), *final(worker_channels)),
            final(worker_channels).rescale.buffered@ == Seq::<u32>::empty(),
            r == latest_of(old(worker_channels).rescale.buffered@).is_some(),
            r ==> *final(self) == spec_resize_frame(
                *old(self),
                latest_of(old(worker_channels).rescale.buffered@).unwrap(),
            ),
            !r ==> *final(self) == *old(self),
    {
        if let Option::Some(new_scale) = worker_channels.get_rescale_update() {
            self.resize_frame(new_scale);
            true
        } else {
            false
        }
    }

    /// One playing-mode poll of the three parameter channels: the pending
    /// update of every channel is applied, rotation first, then gui scale,
    /// then rescale, and all three queues are drained. Reports whether any
    /// channel had a value.
    pub fn update_from_main(&mut self, worker_channels: &mut AsyncChannels) -> (r: bool)
        requires
            old(self).wf(),
            old(worker_channels).scales_in_range(),
        ensures
            final(self).wf(),
            final(worker_channels).scales_in_range(),
            final(worker_channels).progression == old(worker_channels).progression,
            final(worker_channels).abort == old(worker_channels).abort,
            final(worker_channels).video_mode == old(worker_channels).video_mode,
            final(worker_channels).worker_listening == old(worker_channels).worker_listening,
            final(worker_channels).flip.buffered@ == Seq::<Option<RotateFlags>>::empty(),
            final(worker_channels).gui_size.buffered@ == Seq::<u32>::empty(),
            final(worker_channels).rescale.buffered@ == Seq::<u32>::empty(),
            r == (latest_of(old(worker_channels).flip.buffered@).is_some()
                || latest_of(old(worker_channels).gui_size.buffered@).is_some()
                || latest_of(old(worker_channels).rescale.buffered@).is_some()),
            *final(self) == spec_apply_updates(
                *old(self),
                latest_of(old(worker_channels).flip.buffered@),
                latest_of(old(worker_channels).gui_size.buffered@),
                latest_of(old(worker_channels).rescale.buffered@),
            ),
    {
        let flip_updated = self.update_flip(worker_channels);
        let gui_updated = self.update_gui_size(worker_channels);
        let rescale_updated = self.update_rescale(worker_channels);
        flip_updated || gui_updated || rescale_updated
    }
}

/// The preview size of a well-formed manager equals the base size scaled by
/// the rescale factor, with width and height then swapped exactly when the
/// rotation is a quarter turn, and the result scaled by the gui scale.
pub proof fn lemma_preview_size_formula(m: FrameSizeManager)
    requires
        m.wf(),
    ensures
        m.preview_frame_size.width == scaled(
            if rotation_swaps_dimensions(m.rotation) {
                scaled(m.frame_size.height as int, m.re_scale as int)
            } else {
                scaled(m.frame_size.width as int, m.re_scale as int)
            },
            m.gui_scale as int,
        ),
        m.preview_frame_size.height == scaled(
            if rotation_swaps_dimensions(m.rotation) {
                scaled(m.frame_size.width as int, m.re_scale as int)
            } else {
                scaled(m.frame_size.height as int, m.re_scale as int)
            },
            m.gui_scale as int,
        ),
{
}

/// Setting the same gui scale twice leaves the manager exactly as setting it
/// once does: `resize_gui` is idempotent.
pub proof fn lemma_resize_gui_idempotent(m: FrameSizeManager, once: FrameSizeManager, twice: FrameSizeManager, scale: u32)
    requires
        m.wf(),
        1 <= scale <= MAX_SCALE_MILLI,
        once == spec_resize_gui(m, scale),
        twice == spec_resize_gui(once, scale),
    ensures
        twice == once,
{
}

/// The state `resize_gui` leaves behind, as a function of the state before.
pub open spec fn spec_resize_gui(m: FrameSizeManager, new_gui_scale: u32) -> FrameSizeManager {
    FrameSizeManager {
        gui_scale: new_gui_scale,
        preview_frame_size: FrameDimensions {
            width: scaled(m.rotated_rescaled_frame_size.width as int, new_gui_scale as int) as u32,
            height: scaled(m.rotated_rescaled_frame_size.height as int, new_gui_scale as int) as u32,
        },
        ..m
    }
}

/// The state `rotate` leaves behind, as a function of the state before.
pub open spec fn spec_rotate(m: FrameSizeManager, flip: Option<RotateFlags>) -> FrameSizeManager {
    let rotated = spec_rotated(m.rescaled_frame_size, flip);
    FrameSizeManager {
        rotation: flip,
        rotated_rescaled_frame_size: rotated,
        preview_frame_size: FrameDimensions {
            width: scaled(rotated.width as int, m.gui_scale as int) as u32,
            height: scaled(rotated.height as int, m.gui_scale as int) as u32,
        },
        ..m
    }
}

/// The state `resize_frame` leaves behind, as a function of the state
/// before: the rescaled size is recomputed, then the rotated and preview
/// sizes are re-derived from it.
pub open spec fn spec_resize_frame(m: FrameSizeManager, new_rescale: u32) -> FrameSizeManager {
    let rescaled = FrameDimensions {
        width: scaled(m.frame_size.width as int, new_rescale as int) as u32,
        height: scaled(m.frame_size.height as int, new_rescale as int) as u32,
    };
    spec_rotate(
        FrameSizeManager { re_scale: new_rescale, rescaled_frame_size: rescaled, ..m },
        m.rotation,
    )
}

/// The manager state after applying one batch of coalesced live updates in
/// the order the renderer applies them: rotation first, then gui
/// scale, then rescale. An absent option means the matching channel was
/// empty.
pub open spec fn spec_apply_updates(
    m: FrameSizeManager,
    flip_update: Option<Option<RotateFlags>>,
    gui_update: Option<u32>,
    rescale_update: Option<u32>,
) -> FrameSizeManager {
    let after_flip = if flip_update.is_some() { spec_rotate(m, flip_update.unwrap()) } else { m };
    let after_gui = if gui_update.is_some() {
        spec_resize_gui(after_flip, gui_update.unwrap())
    } else {
        after_flip
    };
    if rescale_update.is_some() {
        spec_resize_frame(after_gui, rescale_update.unwrap())
    } else {
        after_gui
    }
}

/// One length scaled by a fixed-point factor in thousandths.
fn scale_len(len: u32, scale_milli: u32) -> (r: u32)
    requires
        len <= MAX_EDIT_DIM,
        scale_milli <= MAX_SCALE_MILLI,
    ensures
        r == scaled(len as int, scale_milli as int),
{
    proof {
        lemma_scaled_bounds(len as int, scale_milli as int, MAX_EDIT_DIM as int, MAX_SCALE_MILLI as int);
        lemma_mul_upper_bound(len as int, MAX_EDIT_DIM as int, scale_milli as int, MAX_SCALE_MILLI as int);
    }
    let product: u64 = (len as u64) * (scale_milli as u64);
    (product / (SCALE_UNIT as u64)) as u32
}

} // verus!
