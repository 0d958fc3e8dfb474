//! The texture object: a validator and state machine for bind, upload,
//! parameter, mipmap-generation and deletion calls. Every mutating call first
//! validates against local state, then — only on success — updates the state
//! and appends the commands to emit to an ordered event log. An embedding
//! drains the log and performs each entry in order.

use vstd::prelude::*;
use vstd::arithmetic::div_mod::{
    lemma_div_multiples_vanish_fancy, lemma_fundamental_div_mod, lemma_mod_bound,
};
use vstd::arithmetic::mul::lemma_mul_is_commutative;
use crate::arith::{
    lemma_mip_dim_step, lemma_mip_dim_stays_one, lemma_mip_dim_zero, lemma_pow2_value_pos, mip_dim,
};
use crate::commands::{TexEvent, WebGLCommand};
use crate::constants::{
    CLAMP_TO_EDGE, LINEAR, LINEAR_MIPMAP_LINEAR, LINEAR_MIPMAP_NEAREST, MAX_FACE_COUNT,
    MAX_LEVEL_COUNT, MIRRORED_REPEAT, NEAREST, NEAREST_MIPMAP_LINEAR, NEAREST_MIPMAP_NEAREST,
    REPEAT, TEXTURE_2D, TEXTURE_CUBE_MAP, TEXTURE_MAG_FILTER, TEXTURE_MAX_ANISOTROPY_EXT,
    TEXTURE_MIN_FILTER, TEXTURE_WRAP_S, TEXTURE_WRAP_T,
};
use crate::error::{WebGLError, WebGLResult};
use crate::float_bits::{
    f32_bits_at_least_one, f32_bits_ge_one, f32_bits_to_i32, spec_f32_bits_to_i32,
};
use crate::image_info::ImageInfo;
use crate::types::{TexDataType, TexFormat, TexImageTarget, TexParameterValue};

verus! {

/// The face slot an upload target addresses.
pub open spec fn spec_face_index(t: TexImageTarget) -> u8 {
    match t {
        TexImageTarget::Texture2D => 0,
        TexImageTarget::CubeMapPositiveX => 0,
        TexImageTarget::CubeMapNegativeX => 1,
        TexImageTarget::CubeMapPositiveY => 2,
        TexImageTarget::CubeMapNegativeY => 3,
        TexImageTarget::CubeMapPositiveZ => 4,
        TexImageTarget::CubeMapNegativeZ => 5,
    }
}

/// One of the six minification filter enumerators.
pub open spec fn spec_is_min_filter(v: i32) -> bool {
    ||| v == NEAREST as i32
    ||| v == LINEAR as i32
    ||| v == NEAREST_MIPMAP_NEAREST as i32
    ||| v == LINEAR_MIPMAP_NEAREST as i32
    ||| v == NEAREST_MIPMAP_LINEAR as i32
    ||| v == LINEAR_MIPMAP_LINEAR as i32
}

/// One of the two magnification filter enumerators.
pub open spec fn spec_is_mag_filter(v: i32) -> bool {
    v == NEAREST as i32 || v == LINEAR as i32
}

/// One of the three wrap-mode enumerators.
pub open spec fn spec_is_wrap_mode(v: i32) -> bool {
    v == CLAMP_TO_EDGE as i32 || v == MIRRORED_REPEAT as i32 || v == REPEAT as i32
}

/// A filter value that samples linearly in some way.
pub open spec fn spec_is_linear_filter(f: u32) -> bool {
    ||| f == LINEAR
    ||| f == NEAREST_MIPMAP_LINEAR
    ||| f == LINEAR_MIPMAP_NEAREST
    ||| f == LINEAR_MIPMAP_LINEAR
}

/// The integer reading of a tagged parameter value: an integer tag is taken
/// as is, a float tag is truncated towards zero and saturated, as Rust's
/// `as i32` cast does.
pub open spec fn spec_param_int(value: TexParameterValue) -> i32 {
    match value {
        TexParameterValue::Int(i) => i,
        TexParameterValue::Float(bits) => spec_f32_bits_to_i32(bits),
    }
}

/// Whether a tagged anisotropy value reads as a float `>= 1.0`. An integer
/// tag is converted to a float first; that conversion is monotone and exact
/// at 1, so the comparison holds exactly for integers at least 1. A
/// float-tagged NaN fails.
pub open spec fn spec_anisotropy_at_least_one(value: TexParameterValue) -> bool {
    match value {
        TexParameterValue::Int(i) => i >= 1,
        TexParameterValue::Float(bits) => f32_bits_at_least_one(bits),
    }
}

/// Metadata of the k-th level derived from a base image: width and height
/// halved k times (never below 1), depth zeroed (the reference depth is only
/// used at the base), format and sample type inherited.
pub open spec fn spec_derived_info(base: ImageInfo, k: nat) -> ImageInfo {
    ImageInfo {
        width: mip_dim(base.width, k) as u32,
        height: mip_dim(base.height, k) as u32,
        depth: 0,
        internal_format: base.internal_format,
        is_initialized: base.is_initialized,
        data_type: base.data_type,
    }
}

/// Whether chain generation still has size left when it reaches derived
/// level `k >= 1`: it stops early once both width and height of the previous
/// level have reached 1.
pub open spec fn spec_chain_alive(base: ImageInfo, k: nat) -> bool {
    !(mip_dim(base.width, (k - 1) as nat) == 1 && mip_dim(base.height, (k - 1) as nat) == 1)
}

/// An index bounded by a multiple of the face count addresses the level it
/// was computed from: `i / fc == level` exactly on `[level*fc, level*fc+fc)`.
pub proof fn lemma_level_of_slot(fc: int, level: int, i: int)
    requires
        fc >= 1,
        0 <= i,
        0 <= level,
    ensures
        (level * fc <= i < level * fc + fc) <==> (i / fc == level),
{
    if level * fc <= i < level * fc + fc {
        lemma_div_multiples_vanish_fancy(level, i - level * fc, fc);
        lemma_mul_is_commutative(fc, level);
    }
    if i / fc == level {
        lemma_fundamental_div_mod(i, fc);
        lemma_mod_bound(i, fc);
        lemma_mul_is_commutative(fc, level);
    }
}

/// The mathematical state of a texture object: its fields with the image
/// table and the emission log as sequences.
#[verifier::ext_equal]
pub ghost struct TexView {
    pub id: u32,
    pub target: Option<u32>,
    pub is_deleted: bool,
    pub images: Seq<ImageInfo>,
    pub face_count: u8,
    pub base_mipmap_level: u32,
    pub min_filter: u32,
    pub mag_filter: u32,
    pub attached_to_dom: bool,
    pub events: Seq<TexEvent>,
}

/// The state of a texture fresh from construction: nothing bound, the whole
/// table defaulted, default filters, no events emitted yet.
pub open spec fn fresh_view(id: u32) -> TexView {
    TexView {
        id: id,
        target: None,
        is_deleted: false,
        images: Seq::new((MAX_LEVEL_COUNT * MAX_FACE_COUNT) as nat, |i: int| ImageInfo::spec_default()),
        face_count: 0,
        base_mipmap_level: 0,
        min_filter: NEAREST_MIPMAP_LINEAR,
        mag_filter: LINEAR,
        attached_to_dom: false,
        events: Seq::empty(),
    }
}

impl TexView {
    /// Well-formedness: the table has its fixed capacity, the face count is
    /// 0 only before binding and matches the bound target, and the base
    /// level is the one fixed at construction.
    pub open spec fn wf(self) -> bool {
        &&& self.images.len() == (MAX_LEVEL_COUNT * MAX_FACE_COUNT) as nat
        &&& (self.face_count == 0 || self.face_count == 1 || self.face_count == 6)
        &&& (self.target is Some <==> self.face_count != 0)
        &&& (self.target == Some(TEXTURE_2D) ==> self.face_count == 1)
        &&& (self.target == Some(TEXTURE_CUBE_MAP) ==> self.face_count == 6)
        &&& (self.target is Some ==> self.target == Some(TEXTURE_2D) || self.target == Some(
            TEXTURE_CUBE_MAP,
        ))
        &&& self.base_mipmap_level == 0
    }

    /// Index of the `(level, face)` slot in the dense table.
    pub open spec fn slot(self, level: int, face: int) -> int {
        level * self.face_count as int + face
    }

    /// The image at face 0 of the base mip level.
    pub open spec fn base_image(self) -> ImageInfo {
        self.images[self.slot(self.base_mipmap_level as int, 0)]
    }

    /// Outcome of `bind`: rejected after deletion; rebinding must name the
    /// stored target and is then a complete no-op; a first bind must name
    /// one of the two supported targets, fixes the face count, and is the
    /// one bind that emits the bind command.
    pub open spec fn spec_bind(self, target: u32) -> (TexView, WebGLResult<()>) {
        if self.is_deleted {
            (self, Err(WebGLError::InvalidOperation))
        } else if self.target is Some {
            if self.target != Some(target) {
                (self, Err(WebGLError::InvalidOperation))
            } else {
                (self, Ok(()))
            }
        } else if target == TEXTURE_2D || target == TEXTURE_CUBE_MAP {
            (
                TexView {
                    target: Some(target),
                    face_count: if target == TEXTURE_2D {
                        1
                    } else {
                        6
                    },
                    events: self.events.push(
                        TexEvent::Command(WebGLCommand::BindTexture(target, self.id)),
                    ),
                    ..self
                },
                Ok(()),
            )
        } else {
            (self, Err(WebGLError::InvalidEnum))
        }
    }

    /// Outcome of `initialize`: the addressed slot is overwritten with the
    /// given metadata, marked initialized; nothing is emitted.
    pub open spec fn spec_initialize(
        self,
        target_face: TexImageTarget,
        width: u32,
        height: u32,
        depth: u32,
        internal_format: TexFormat,
        level: u32,
        data_type: Option<TexDataType>,
    ) -> TexView {
        TexView {
            images: self.images.update(
                self.slot(level as int, spec_face_index(target_face) as int),
                ImageInfo {
                    width: width,
                    height: height,
                    depth: depth,
                    internal_format: Some(internal_format),
                    is_initialized: true,
                    data_type: data_type,
                },
            ),
            ..self
        }
    }

    /// Outcome of `delete`: idempotent; the first call marks the object
    /// deleted and appends, in order, the optional presentation-link detach,
    /// the optional framebuffer detach, and the delete command (must-deliver
    /// unless `fallible`).
    pub open spec fn spec_delete(self, fallible: bool, framebuffer_bound: bool) -> TexView {
        if self.is_deleted {
            self
        } else {
            let evs1 = if self.attached_to_dom {
                self.events.push(TexEvent::DomDetach(self.id))
            } else {
                self.events
            };
            let evs2 = if framebuffer_bound {
                evs1.push(TexEvent::FramebufferDetach(self.id))
            } else {
                evs1
            };
            let evs3 = if fallible {
                evs2.push(TexEvent::CommandIgnored(WebGLCommand::DeleteTexture(self.id)))
            } else {
                evs2.push(TexEvent::Command(WebGLCommand::DeleteTexture(self.id)))
            };
            TexView { is_deleted: true, events: evs3, ..self }
        }
    }

    /// Some filter in use samples linearly.
    pub open spec fn spec_uses_linear_filtering(self) -> bool {
        spec_is_linear_filter(self.min_filter) || spec_is_linear_filter(self.mag_filter)
    }

    /// Outcome of `tex_parameter` on a bound texture. Rejected outright
    /// after deletion: a deleted texture never emits another non-cleanup
    /// command. Otherwise the tagged value is read as an integer
    /// (`spec_param_int`) for the filter and wrap parameters and as a float
    /// for the anisotropy extension. Filters keep a local cache and
    /// suppress the command when the value is unchanged; wrap modes have no
    /// cache and always emit; every unknown enumerator or out-of-range
    /// value is rejected without any state change.
    pub open spec fn spec_tex_parameter(self, param: u32, value: TexParameterValue) -> (
        TexView,
        WebGLResult<()>,
    ) {
        let target = self.target->0;
        let int_value = spec_param_int(value);
        if self.is_deleted {
            (self, Err(WebGLError::InvalidOperation))
        } else if param == TEXTURE_MIN_FILTER {
            if spec_is_min_filter(int_value) {
                if self.min_filter == int_value as u32 {
                    (self, Ok(()))
                } else {
                    (
                        TexView {
                            min_filter: int_value as u32,
                            events: self.events.push(
                                TexEvent::Command(
                                    WebGLCommand::TexParameteri(target, param, int_value),
                                ),
                            ),
                            ..self
                        },
                        Ok(()),
                    )
                }
            } else {
                (self, Err(WebGLError::InvalidEnum))
            }
        } else if param == TEXTURE_MAG_FILTER {
            if spec_is_mag_filter(int_value) {
                if self.mag_filter == int_value as u32 {
                    (self, Ok(()))
                } else {
                    (
                        TexView {
                            mag_filter: int_value as u32,
                            events: self.events.push(
                                TexEvent::Command(
                                    WebGLCommand::TexParameteri(target, param, int_value),
                                ),
                            ),
                            ..self
                        },
                        Ok(()),
                    )
                }
            } else {
                (self, Err(WebGLError::InvalidEnum))
            }
        } else if param == TEXTURE_WRAP_S || param == TEXTURE_WRAP_T {
            if spec_is_wrap_mode(int_value) {
                (
                    TexView {
                        events: self.events.push(
                            TexEvent::Command(WebGLCommand::TexParameteri(target, param, int_value)),
                        ),
                        ..self
                    },
                    Ok(()),
                )
            } else {
                (self, Err(WebGLError::InvalidEnum))
            }
        } else if param == TEXTURE_MAX_ANISOTROPY_EXT {
            if spec_anisotropy_at_least_one(value) {
                (
                    TexView {
                        events: self.events.push(
                            TexEvent::Command(WebGLCommand::TexParameterf(target, param, value)),
                        ),
                        ..self
                    },
                    Ok(()),
                )
            } else {
                (self, Err(WebGLError::InvalidValue))
            }
        } else {
            (self, Err(WebGLError::InvalidEnum))
        }
    }

    /// The table with every face of the levels strictly between `first` and
    /// `upto` overwritten by the level derived from the base at `first`,
    /// with no early stop. The loop that fills the table maintains this
    /// shape for the prefix it has processed.
    pub open spec fn spec_populated_prefix(self, first: int, upto: int) -> Seq<ImageInfo> {
        let base = self.images[self.slot(first, 0)];
        Seq::new(
            self.images.len(),
            |i: int|
                {
                    let level = i / (self.face_count as int);
                    if first < level < upto {
                        spec_derived_info(base, (level - first) as nat)
                    } else {
                        self.images[i]
                    }
                },
        )
    }

    /// The table after mip-chain population from `first` towards `last`:
    /// every face of a level strictly between them is overwritten by the
    /// derived level, except that generation stops early once both derived
    /// dimensions have reached 1. `last` itself is never written.
    pub open spec fn spec_populated_images(self, first: int, last: int) -> Seq<ImageInfo> {
        let base = self.images[self.slot(first, 0)];
        Seq::new(
            self.images.len(),
            |i: int|
                {
                    let level = i / (self.face_count as int);
                    if first < level < last && spec_chain_alive(base, (level - first) as nat) {
                        spec_derived_info(base, (level - first) as nat)
                    } else {
                        self.images[i]
                    }
                },
        )
    }

    /// Outcome of `populate_mip_chain`: rejected (with no partial write)
    /// when the reference image at `(first, face 0)` is uninitialized or has
    /// a zero dimension; otherwise the whole table transform above.
    pub open spec fn spec_populate_mip_chain(self, first: int, last: int) -> (
        TexView,
        WebGLResult<()>,
    ) {
        let base = self.images[self.slot(first, 0)];
        if !base.is_initialized {
            (self, Err(WebGLError::InvalidOperation))
        } else if base.width == 0 || base.height == 0 {
            (self, Err(WebGLError::InvalidOperation))
        } else {
            (TexView { images: self.spec_populated_images(first, last), ..self }, Ok(()))
        }
    }

    /// Face `f` of the base level agrees with face 0: defined, same format,
    /// same width, and height equal to the reference *width* — the height is
    /// compared against the width so that only square faces pass.
    pub open spec fn spec_cube_face_matches(self, f: int) -> bool {
        let r = self.images[self.slot(self.base_mipmap_level as int, 0)];
        let c = self.images[self.slot(self.base_mipmap_level as int, f)];
        &&& c.internal_format is Some
        &&& c.internal_format == r.internal_format
        &&& c.width == r.width
        &&& c.height == r.width
    }

    /// Cube-completeness at the base level: the reference face is defined
    /// and all six faces agree with it.
    pub open spec fn spec_cube_complete(self) -> bool {
        &&& self.base_image().spec_is_defined()
        &&& forall|f: int| 0 <= f < 6 ==> self.spec_cube_face_matches(f)
    }

    /// Outcome of `generate_mipmap`, its preconditions checked in order,
    /// first failure winning and leaving the state (and the event log)
    /// untouched: the object not deleted (a deleted texture never emits
    /// another non-cleanup command); a bound target; an initialized base
    /// image; for a cube map, cube-completeness; power-of-two base
    /// dimensions; an uncompressed base format. On success the
    /// generate-mipmap command is emitted and the mip chain is populated
    /// from the base level through `base + maxLevels(base) - 1`.
    pub open spec fn spec_generate_mipmap(self) -> (TexView, WebGLResult<()>) {
        if self.is_deleted {
            (self, Err(WebGLError::InvalidOperation))
        } else if self.target is None {
            (self, Err(WebGLError::InvalidOperation))
        } else {
            let base = self.base_image();
            if !base.is_initialized {
                (self, Err(WebGLError::InvalidOperation))
            } else if self.target == Some(TEXTURE_CUBE_MAP) && !self.spec_cube_complete() {
                (self, Err(WebGLError::InvalidOperation))
            } else if !base.spec_is_power_of_two() {
                (self, Err(WebGLError::InvalidOperation))
            } else if base.spec_is_compressed_format() {
                (self, Err(WebGLError::InvalidOperation))
            } else {
                let sent = TexView {
                    events: self.events.push(
                        TexEvent::Command(WebGLCommand::GenerateMipmap(self.target->0)),
                    ),
                    ..self
                };
                let last = self.base_mipmap_level as int + base.spec_max_mipmap_levels() as int - 1;
                sent.spec_populate_mip_chain(self.base_mipmap_level as int, last)
            }
        }
    }
}

/// Every slot a bounded level and face address lies inside the fixed table.
pub proof fn lemma_slot_in_bounds(s: TexView, level: int, face: int)
    requires
        s.wf(),
        0 <= level < MAX_LEVEL_COUNT as int,
        0 <= face < s.face_count as int,
    ensures
        0 <= s.slot(level, face) < (MAX_LEVEL_COUNT * MAX_FACE_COUNT) as int,
{
    assert(0 <= level * (s.face_count as int) + face < 186) by (nonlinear_arith)
        requires
            0 <= level < 31,
            0 <= face < s.face_count as int,
            s.face_count == 1 || s.face_count == 6,
    ;
}

/// A texture object. The `events` field is the ordered emission log standing
/// for the one-way command channel: operations append to it and never send
/// anything themselves.
pub struct WebGLTexture {
    pub id: u32,
    pub target: Option<u32>,
    pub is_deleted: bool,
    pub image_info_array: Vec<ImageInfo>,
    pub face_count: u8,
    pub base_mipmap_level: u32,
    pub min_filter: u32,
    pub mag_filter: u32,
    pub attached_to_dom: bool,
    pub events: Vec<TexEvent>,
}

impl View for WebGLTexture {
    type V = TexView;

    open spec fn view(&self) -> TexView {
        TexView {
            id: self.id,
            target: self.target,
            is_deleted: self.is_deleted,
            images: self.image_info_array@,
            face_count: self.face_count,
            base_mipmap_level: self.base_mipmap_level,
            min_filter: self.min_filter,
            mag_filter: self.mag_filter,
            attached_to_dom: self.attached_to_dom,
            events: self.events@,
        }
    }
}

impl WebGLTexture {
    /// Local value construction around an id the executor has already
    /// allocated.
    pub fn new(id: u32) -> (r: WebGLTexture)
        ensures
            r@ == fresh_view(id),
            r@.wf(),
    {
        let mut infos: Vec<ImageInfo> = Vec::new();
        let mut i: usize = 0;
        while i < MAX_LEVEL_COUNT * MAX_FACE_COUNT
            invariant
                infos@.len() == i,
                i <= MAX_LEVEL_COUNT * MAX_FACE_COUNT,
                forall|j: int| 0 <= j < i ==> infos@[j] == ImageInfo::spec_default(),
            decreases MAX_LEVEL_COUNT * MAX_FACE_COUNT - i,
        {
            infos.push(ImageInfo::new());
            i = i + 1;
        }
        let t = WebGLTexture {
            id: id,
            target: None,
            is_deleted: false,
            image_info_array: infos,
            face_count: 0,
            base_mipmap_level: 0,
            min_filter: NEAREST_MIPMAP_LINEAR,
            mag_filter: LINEAR,
            attached_to_dom: false,
            events: Vec::new(),
        };
        proof {
            assert(t@ =~= fresh_view(id));
        }
        t
    }

    /// Second phase of construction: maps the executor's reply to the
    /// synchronous allocation request. No reply (resource exhaustion) yields
    /// no object.
    pub fn maybe_new(id_reply: Option<u32>) -> (r: Option<WebGLTexture>)
        ensures
            match r {
                Some(t) => id_reply is Some && t@ == fresh_view(id_reply->0) && t@.wf(),
                None => id_reply is None,
            },
    {
        match id_reply {
            Some(id) => Some(WebGLTexture::new(id)),
            None => None,
        }
    }

    pub fn id(&self) -> (r: u32)
        ensures
            r == self@.id,
    {
        self.id
    }

    pub fn target(&self) -> (r: Option<u32>)
        ensures
            r == self@.target,
    {
        self.target
    }

    pub fn is_deleted(&self) -> (r: bool)
        ensures
            r == self@.is_deleted,
    {
        self.is_deleted
    }

    pub fn min_filter(&self) -> (r: u32)
        ensures
            r == self@.min_filter,
    {
        self.min_filter
    }

    pub fn mag_filter(&self) -> (r: u32)
        ensures
            r == self@.mag_filter,
    {
        self.mag_filter
    }

    /// Marks the texture as feeding an external presentation path; deletion
    /// will then emit a detach notification.
    pub fn set_attached_to_dom(&mut self)
        ensures
            final(self)@ == (TexView { attached_to_dom: true, ..old(self)@ }),
    {
        self.attached_to_dom = true;
    }

    /// The ordered emission log recorded so far.
    pub fn events(&self) -> (r: &Vec<TexEvent>)
        ensures
            r@ == self@.events,
    {
        &self.events
    }

    /// Empties the emission log; an embedding calls this after performing
    /// the drained entries in order.
    pub fn clear_events(&mut self)
        ensures
            final(self)@ == (TexView { events: Seq::empty(), ..old(self)@ }),
    {
        self.events = Vec::new();
        proof {
            assert(self@ =~= (TexView { events: Seq::empty(), ..old(self)@ }));
        }
    }

    pub fn is_using_linear_filtering(&self) -> (r: bool)
        ensures
            r == self@.spec_uses_linear_filtering(),
    {
        let min = self.min_filter;
        let mag = self.mag_filter;
        (min == LINEAR || min == NEAREST_MIPMAP_LINEAR || min == LINEAR_MIPMAP_NEAREST || min
            == LINEAR_MIPMAP_LINEAR) || (mag == LINEAR || mag == NEAREST_MIPMAP_LINEAR || mag
            == LINEAR_MIPMAP_NEAREST || mag == LINEAR_MIPMAP_LINEAR)
    }

    /// Binds the texture to a target. The first successful call fixes
    /// target and face count and emits the bind command; a later bind to
    /// the same target succeeds as a complete no-op. See
    /// `TexView::spec_bind` for the exact outcome.
    pub fn bind(&mut self, target: u32) -> (r: WebGLResult<()>)
        requires
            old(self)@.wf(),
        ensures
            final(self)@.wf(),
            ({
                let (post, res) = old(self)@.spec_bind(target);
                final(self)@ == post && r == res
            }),
    {
        if self.is_deleted {
            return Err(WebGLError::InvalidOperation);
        }
        match self.target {
            Some(previous_target) => {
                if target != previous_target {
                    return Err(WebGLError::InvalidOperation);
                }
                Ok(())
            },
            None => {
                // This is the first time binding
                let face_count: u8 = if target == TEXTURE_2D {
                    1
                } else if target == TEXTURE_CUBE_MAP {
                    6
                } else {
                    return Err(WebGLError::InvalidEnum);
                };
                self.face_count = face_count;
                self.target = Some(target);
                self.events.push(TexEvent::Command(WebGLCommand::BindTexture(target, self.id)));
                proof {
                    assert(self@ =~= old(self)@.spec_bind(target).0);
                }
                Ok(())
            },
        }
    }

    /// Idempotent teardown. `framebuffer_bound` reports whether the
    /// embedding currently has a framebuffer bound whose attachments may
    /// reference this texture; its detach hook is then invoked (through the
    /// event log) before the delete command, so the executor never races a
    /// detach against the delete. See `TexView::spec_delete`.
    pub fn delete(&mut self, fallible: bool, framebuffer_bound: bool)
        requires
            old(self)@.wf(),
        ensures
            final(self)@.wf(),
            final(self)@ == old(self)@.spec_delete(fallible, framebuffer_bound),
    {
        if !self.is_deleted {
            self.is_deleted = true;
            // Notify the compositor to release the frame output when the
            // texture feeds an external presentation path
            if self.attached_to_dom {
                self.events.push(TexEvent::DomDetach(self.id));
            }
            // A texture deleted while attached to the currently bound
            // framebuffer behaves as though it were explicitly detached
            // from every attachment point first
            if framebuffer_bound {
                self.events.push(TexEvent::FramebufferDetach(self.id));
            }
            let cmd = WebGLCommand::DeleteTexture(self.id);
            if fallible {
                self.events.push(TexEvent::CommandIgnored(cmd));
            } else {
                self.events.push(TexEvent::Command(cmd));
            }
            proof {
                assert(self@ =~= old(self)@.spec_delete(fallible, framebuffer_bound));
            }
        }
    }

    /// Records the metadata of an uploaded image at the slot the target and
    /// level address. The pixel upload command itself is issued by a
    /// caller-side collaborator, not by this core.
    pub fn initialize(
        &mut self,
        target: TexImageTarget,
        width: u32,
        height: u32,
        depth: u32,
        internal_format: TexFormat,
        level: u32,
        data_type: Option<TexDataType>,
    ) -> (r: WebGLResult<()>)
        requires
            old(self)@.wf(),
            level < MAX_LEVEL_COUNT as u32,
            spec_face_index(target) < old(self)@.face_count,
        ensures
            final(self)@.wf(),
            final(self)@ == old(self)@.spec_initialize(
                target,
                width,
                height,
                depth,
                internal_format,
                level,
                data_type,
            ),
            r is Ok,
    {
        let image_info = ImageInfo {
            width: width,
            height: height,
            depth: depth,
            internal_format: Some(internal_format),
            is_initialized: true,
            data_type: data_type,
        };
        let face_index = self.face_index_for_target(&target);
        self.set_image_infos_at_level_and_face(level, face_index, image_info);
        Ok(())
    }

    fn face_index_for_target(&self, target: &TexImageTarget) -> (r: u8)
        ensures
            r == spec_face_index(*target),
    {
        match *target {
            TexImageTarget::Texture2D => 0,
            TexImageTarget::CubeMapPositiveX => 0,
            TexImageTarget::CubeMapNegativeX => 1,
            TexImageTarget::CubeMapPositiveY => 2,
            TexImageTarget::CubeMapNegativeY => 3,
            TexImageTarget::CubeMapPositiveZ => 4,
            TexImageTarget::CubeMapNegativeZ => 5,
        }
    }

    /// The recorded image at the slot the target and level address.
    pub fn image_info_for_target(&self, target: &TexImageTarget, level: u32) -> (r: ImageInfo)
        requires
            self@.wf(),
            level < MAX_LEVEL_COUNT as u32,
            spec_face_index(*target) < self@.face_count,
        ensures
            r == self@.images[self@.slot(level as int, spec_face_index(*target) as int)],
    {
        let face_index = self.face_index_for_target(target);
        self.image_info_at_face(face_index, level)
    }

    /// The recorded image at `(level, face)`.
    pub fn image_info_at_face(&self, face: u8, level: u32) -> (r: ImageInfo)
        requires
            self@.wf(),
            face < self@.face_count,
            level < MAX_LEVEL_COUNT as u32,
        ensures
            r == self@.images[self@.slot(level as int, face as int)],
    {
        proof {
            lemma_slot_in_bounds(self@, level as int, face as int);
        }
        let pos: usize = (level as usize) * (self.face_count as usize) + (face as usize);
        self.image_info_array[pos]
    }

    fn set_image_infos_at_level_and_face(&mut self, level: u32, face: u8, image_info: ImageInfo)
        requires
            old(self)@.wf(),
            face < old(self)@.face_count,
            level < MAX_LEVEL_COUNT as u32,
        ensures
            final(self)@.wf(),
            final(self)@ == (TexView {
                images: old(self)@.images.update(
                    old(self)@.slot(level as int, face as int),
                    image_info,
                ),
                ..old(self)@
            }),
    {
        proof {
            lemma_slot_in_bounds(self@, level as int, face as int);
        }
        let pos: usize = (level as usize) * (self.face_count as usize) + (face as usize);
        self.image_info_array.set(pos, image_info);
        proof {
            assert(self@ =~= (TexView {
                images: old(self)@.images.update(
                    old(self)@.slot(level as int, face as int),
                    image_info,
                ),
                ..old(self)@
            }));
        }
    }

    /// Validates and applies one parameter setting, following the GLES2
    /// conversion rules for tagged numeric values. A deleted texture
    /// rejects every setting with `InvalidOperation` and emits nothing.
    /// Calling this before the texture is bound is a programmer error no
    /// legitimate call path reaches, so a bound target is a precondition
    /// rather than a recoverable failure.
    pub fn tex_parameter(&mut self, param: u32, value: TexParameterValue) -> (r: WebGLResult<()>)
        requires
            old(self)@.wf(),
            old(self)@.target is Some,
        ensures
            final(self)@.wf(),
            ({
                let (post, res) = old(self)@.spec_tex_parameter(param, value);
                final(self)@ == post && r == res
            }),
    {
        if self.is_deleted {
            return Err(WebGLError::InvalidOperation);
        }
        let target = self.target.unwrap();
        let int_value: i32 = match value {
            TexParameterValue::Int(int_value) => int_value,
            TexParameterValue::Float(bits) => f32_bits_to_i32(bits),
        };
        if param == TEXTURE_MIN_FILTER {
            if int_value == NEAREST as i32 || int_value == LINEAR as i32 || int_value
                == NEAREST_MIPMAP_NEAREST as i32 || int_value == LINEAR_MIPMAP_NEAREST as i32
                || int_value == NEAREST_MIPMAP_LINEAR as i32 || int_value
                == LINEAR_MIPMAP_LINEAR as i32 {
                if self.min_filter == int_value as u32 {
                    return Ok(());
                }
                self.min_filter = int_value as u32;
                self.events.push(
                    TexEvent::Command(WebGLCommand::TexParameteri(target, param, int_value)),
                );
                proof {
                    assert(self@ =~= old(self)@.spec_tex_parameter(param, value).0);
                }
                Ok(())
            } else {
                Err(WebGLError::InvalidEnum)
            }
        } else if param == TEXTURE_MAG_FILTER {
            if int_value == NEAREST as i32 || int_value == LINEAR as i32 {
                if self.mag_filter == int_value as u32 {
                    return Ok(());
                }
                self.mag_filter = int_value as u32;
                self.events.push(
                    TexEvent::Command(WebGLCommand::TexParameteri(target, param, int_value)),
                );
                proof {
                    assert(self@ =~= old(self)@.spec_tex_parameter(param, value).0);
                }
                Ok(())
            } else {
                Err(WebGLError::InvalidEnum)
            }
        } else if param == TEXTURE_WRAP_S || param == TEXTURE_WRAP_T {
            if int_value == CLAMP_TO_EDGE as i32 || int_value == MIRRORED_REPEAT as i32
                || int_value == REPEAT as i32 {
                self.events.push(
                    TexEvent::Command(WebGLCommand::TexParameteri(target, param, int_value)),
                );
                proof {
                    assert(self@ =~= old(self)@.spec_tex_parameter(param, value).0);
                }
                Ok(())
            } else {
                Err(WebGLError::InvalidEnum)
            }
        } else if param == TEXTURE_MAX_ANISOTROPY_EXT {
            let at_least_one = match value {
                TexParameterValue::Int(i) => i >= 1,
                TexParameterValue::Float(bits) => f32_bits_ge_one(bits),
            };
            // NaN is not at least 1, so a NaN-tagged float fails here.
            if !at_least_one {
                return Err(WebGLError::InvalidValue);
            }
            self.events.push(
                TexEvent::Command(WebGLCommand::TexParameterf(target, param, value)),
            );
            proof {
                assert(self@ =~= old(self)@.spec_tex_parameter(param, value).0);
            }
            Ok(())
        } else {
            Err(WebGLError::InvalidEnum)
        }
    }

    fn base_image_info(&self) -> (r: ImageInfo)
        requires
            self@.wf(),
            self@.face_count >= 1,
        ensures
            r == self@.base_image(),
    {
        self.image_info_at_face(0, self.base_mipmap_level)
    }

    fn set_image_infos_at_level(&mut self, level: u32, image_info: ImageInfo)
        requires
            old(self)@.wf(),
            old(self)@.face_count >= 1,
            level < MAX_LEVEL_COUNT as u32,
        ensures
            final(self)@.wf(),
            final(self)@ == (TexView {
                images: Seq::new(
                    old(self)@.images.len(),
                    |i: int|
                        if i / (old(self)@.face_count as int) == level as int {
                            image_info
                        } else {
                            old(self)@.images[i]
                        },
                ),
                ..old(self)@
            }),
    {
        let ghost pre = self@;
        let face_count = self.face_count;
        proof {
            assert(self@ =~= (TexView {
                images: Seq::new(
                    pre.images.len(),
                    |i: int|
                        if pre.slot(level as int, 0) <= i < pre.slot(level as int, 0) {
                            image_info
                        } else {
                            pre.images[i]
                        },
                ),
                ..pre
            }));
        }
        let mut face: u8 = 0;
        while face < face_count
            invariant
                self@.wf(),
                pre.wf(),
                face_count == pre.face_count,
                1 <= face_count,
                face <= face_count,
                level < MAX_LEVEL_COUNT as u32,
                self@ == (TexView {
                    images: Seq::new(
                        pre.images.len(),
                        |i: int|
                            if pre.slot(level as int, 0) <= i < pre.slot(level as int, face as int) {
                                image_info
                            } else {
                                pre.images[i]
                            },
                    ),
                    ..pre
                }),
            decreases face_count - face,
        {
            self.set_image_infos_at_level_and_face(level, face, image_info);
            proof {
                lemma_slot_in_bounds(pre, level as int, face as int);
                assert(self@ =~= (TexView {
                    images: Seq::new(
                        pre.images.len(),
                        |i: int|
                            if pre.slot(level as int, 0) <= i < pre.slot(
                                level as int,
                                (face + 1) as int,
                            ) {
                                image_info
                            } else {
                                pre.images[i]
                            },
                    ),
                    ..pre
                }));
            }
            face = face + 1;
        }
        proof {
            let fc = pre.face_count as int;
            let imgs = self@.images;
            assert forall|i: int| 0 <= i < pre.images.len() implies #[trigger] imgs[i] == (if i / fc
                == level as int {
                image_info
            } else {
                pre.images[i]
            }) by {
                lemma_level_of_slot(fc, level as int, i);
            };
            assert(self@.images =~= Seq::new(
                pre.images.len(),
                |i: int|
                    if i / fc == level as int {
                        image_info
                    } else {
                        pre.images[i]
                    },
            ));
        }
    }

    fn is_cube_complete(&self) -> (r: bool)
        requires
            self@.wf(),
            self@.face_count == 6,
        ensures
            r == self@.spec_cube_complete(),
    {
        let image_info = self.base_image_info();
        if !image_info.is_defined() {
            return false;
        }
        let ref_width = image_info.width();
        let ref_format = image_info.internal_format().unwrap();
        let mut face: u8 = 0;
        while face < 6
            invariant
                self@.wf(),
                self@.face_count == 6,
                face <= 6,
                forall|f: int| 0 <= f < face as int ==> self@.spec_cube_face_matches(f),
                self@.base_image().spec_is_defined(),
                ref_width == self@.base_image().width,
                Some(ref_format) == self@.base_image().internal_format,
            decreases 6 - face,
        {
            let current_image_info = self.image_info_at_face(face, self.base_mipmap_level);
            match current_image_info.internal_format() {
                None => {
                    proof {
                        assert(!self@.spec_cube_face_matches(face as int));
                    }
                    return false;
                },
                Some(current_format) => {
                    // Compares height with width to enforce square dimensions
                    if !(current_format == ref_format) || current_image_info.width() != ref_width
                        || current_image_info.height() != ref_width {
                        proof {
                            assert(!self@.spec_cube_face_matches(face as int));
                        }
                        return false;
                    }
                },
            }
            face = face + 1;
        }
        true
    }

    /// Fills every face of the levels strictly between `first_level` and
    /// `last_level` with progressively halved copies of the image at
    /// `(first_level, face 0)`, stopping early once both dimensions have
    /// reached 1; fails without any partial write when that reference image
    /// is uninitialized or has a zero dimension. See
    /// `TexView::spec_populate_mip_chain`.
    pub fn populate_mip_chain(&mut self, first_level: u32, last_level: u32) -> (r: WebGLResult<()>)
        requires
            old(self)@.wf(),
            old(self)@.target is Some,
            first_level < MAX_LEVEL_COUNT as u32,
            last_level <= MAX_LEVEL_COUNT as u32,
        ensures
            final(self)@.wf(),
            ({
                let (post, res) = old(self)@.spec_populate_mip_chain(
                    first_level as int,
                    last_level as int,
                );
                final(self)@ == post && r == res
            }),
    {
        let ghost pre = self@;
        let base_image_info = self.image_info_at_face(0, first_level);
        if !base_image_info.is_initialized() {
            return Err(WebGLError::InvalidOperation);
        }
        let mut ref_width = base_image_info.width();
        let mut ref_height = base_image_info.height();
        if ref_width == 0 || ref_height == 0 {
            return Err(WebGLError::InvalidOperation);
        }
        proof {
            lemma_mip_dim_zero(base_image_info.width);
            lemma_mip_dim_zero(base_image_info.height);
            assert(self@ =~= (TexView {
                images: pre.spec_populated_prefix(first_level as int, (first_level + 1) as int),
                ..pre
            }));
        }
        let mut level: u32 = first_level + 1;
        while level < last_level && !(ref_width == 1 && ref_height == 1)
            invariant
                self@.wf(),
                pre.wf(),
                pre.target is Some,
                first_level + 1 <= level,
                first_level < MAX_LEVEL_COUNT as u32,
                last_level <= MAX_LEVEL_COUNT as u32,
                level <= last_level || level == first_level + 1,
                base_image_info == pre.images[pre.slot(first_level as int, 0)],
                base_image_info.is_initialized,
                1 <= base_image_info.width,
                1 <= base_image_info.height,
                ref_width as nat == mip_dim(base_image_info.width, (level - first_level - 1) as nat),
                ref_height as nat == mip_dim(
                    base_image_info.height,
                    (level - first_level - 1) as nat,
                ),
                1 <= ref_width,
                1 <= ref_height,
                forall|k: nat|
                    1 <= k < (level - first_level) as nat ==> spec_chain_alive(base_image_info, k),
                self@ == (TexView {
                    images: pre.spec_populated_prefix(first_level as int, level as int),
                    ..pre
                }),
            decreases last_level as int - level as int,
        {
            let halved_w = ref_width / 2;
            let halved_h = ref_height / 2;
            proof {
                lemma_mip_dim_step(base_image_info.width, (level - first_level - 1) as nat);
                lemma_mip_dim_step(base_image_info.height, (level - first_level - 1) as nat);
            }
            ref_width = if halved_w == 0 {
                1
            } else {
                halved_w
            };
            ref_height = if halved_h == 0 {
                1
            } else {
                halved_h
            };
            let image_info = ImageInfo {
                width: ref_width,
                height: ref_height,
                depth: 0,
                internal_format: base_image_info.internal_format(),
                is_initialized: base_image_info.is_initialized(),
                data_type: base_image_info.data_type(),
            };
            proof {
                assert(image_info == spec_derived_info(
                    base_image_info,
                    (level - first_level) as nat,
                ));
            }
            self.set_image_infos_at_level(level, image_info);
            proof {
                assert(self@.images =~= pre.spec_populated_prefix(
                    first_level as int,
                    (level + 1) as int,
                ));
                assert(self@ =~= (TexView {
                    images: pre.spec_populated_prefix(first_level as int, (level + 1) as int),
                    ..pre
                }));
            }
            level = level + 1;
        }
        proof {
            if ref_width == 1 && ref_height == 1 {
                assert forall|k: nat|
                    (level - first_level) as nat <= k implies !spec_chain_alive(
                    base_image_info,
                    k,
                ) by {
                    lemma_mip_dim_stays_one(
                        base_image_info.width,
                        (level - first_level - 1) as nat,
                        (k - 1) as nat,
                    );
                    lemma_mip_dim_stays_one(
                        base_image_info.height,
                        (level - first_level - 1) as nat,
                        (k - 1) as nat,
                    );
                };
            }
            assert(self@.images =~= pre.spec_populated_images(
                first_level as int,
                last_level as int,
            ));
            assert(self@ =~= (TexView {
                images: pre.spec_populated_images(first_level as int, last_level as int),
                ..pre
            }));
        }
        Ok(())
    }

    /// Validates the generate-mipmap preconditions in order (not deleted,
    /// bound target, initialized base image, cube-completeness for a cube
    /// map, power-of-two base dimensions, uncompressed base format); on
    /// success emits the generate-mipmap command and populates the mip
    /// chain. See `TexView::spec_generate_mipmap`.
    pub fn generate_mipmap(&mut self) -> (r: WebGLResult<()>)
        requires
            old(self)@.wf(),
        ensures
            final(self)@.wf(),
            ({
                let (post, res) = old(self)@.spec_generate_mipmap();
                final(self)@ == post && r == res
            }),
    {
        let ghost pre = self@;
        if self.is_deleted {
            return Err(WebGLError::InvalidOperation);
        }
        let target = match self.target {
            Some(target) => target,
            None => {
                return Err(WebGLError::InvalidOperation);
            },
        };
        let base_image_info = self.base_image_info();
        if !base_image_info.is_initialized() {
            return Err(WebGLError::InvalidOperation);
        }
        let is_cubic = target == TEXTURE_CUBE_MAP;
        if is_cubic && !self.is_cube_complete() {
            return Err(WebGLError::InvalidOperation);
        }
        if !base_image_info.is_power_of_two() {
            return Err(WebGLError::InvalidOperation);
        }
        if base_image_info.is_compressed_format() {
            return Err(WebGLError::InvalidOperation);
        }
        self.events.push(TexEvent::Command(WebGLCommand::GenerateMipmap(target)));
        proof {
            lemma_pow2_value_pos(base_image_info.width);
            lemma_pow2_value_pos(base_image_info.height);
            lemma_pow2_value_pos(base_image_info.depth);
        }
        let max_levels = base_image_info.max_mipmap_levels();
        if self.base_mipmap_level + max_levels == 0 {
            return Err(WebGLError::InvalidOperation);
        }
        let last_level = self.base_mipmap_level + max_levels - 1;
        let ghost sent = self@;
        proof {
            assert(sent =~= (TexView {
                events: pre.events.push(TexEvent::Command(WebGLCommand::GenerateMipmap(target))),
                ..pre
            }));
        }
        let r = self.populate_mip_chain(self.base_mipmap_level, last_level);
        r
    }
}

} // verus!
