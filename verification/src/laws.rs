//! The behavioural laws of the texture state machine, stated over the spec
//! transitions and proved once for every state. Each executable operation's
//! contract says its outcome equals the corresponding spec transition, so
//! these laws carry over to the executable code.

use vstd::prelude::*;
use crate::arith::{
    lemma_floor_log2_u32, lemma_mip_dim_le, lemma_mip_dim_step, lemma_pow2_value_pos,
};
use crate::commands::{TexEvent, WebGLCommand};
use crate::constants::{TEXTURE_CUBE_MAP, TEXTURE_MAX_ANISOTROPY_EXT, TEXTURE_MIN_FILTER};
use crate::error::WebGLError;
use crate::image_info::ImageInfo;
use crate::texture::{
    lemma_level_of_slot, lemma_slot_in_bounds, spec_anisotropy_at_least_one, spec_chain_alive,
    spec_derived_info, spec_is_min_filter, spec_param_int, TexView,
};
use crate::types::TexParameterValue;

verus! {

/// Each subsequent derived mip level is computed from the previous one by
/// halving both dimensions, flooring, and never going below 1.
pub proof fn lemma_derived_levels_halve(base: ImageInfo, k: nat)
    requires
        base.width >= 1,
        base.height >= 1,
    ensures
        ({
            let prev = spec_derived_info(base, k);
            let next = spec_derived_info(base, (k + 1) as nat);
            &&& next.width as nat == (if prev.width as nat / 2 >= 1 {
                prev.width as nat / 2
            } else {
                1nat
            })
            &&& next.height as nat == (if prev.height as nat / 2 >= 1 {
                prev.height as nat / 2
            } else {
                1nat
            })
        }),
{
    lemma_mip_dim_le(base.width, k);
    lemma_mip_dim_le(base.height, k);
    lemma_mip_dim_le(base.width, k + 1);
    lemma_mip_dim_le(base.height, k + 1);
    lemma_mip_dim_step(base.width, k);
    lemma_mip_dim_step(base.height, k);
}

/// A delete command for the executor, must-deliver or tolerated.
pub open spec fn is_delete_event(e: TexEvent) -> bool {
    match e {
        TexEvent::Command(cmd) => cmd is DeleteTexture,
        TexEvent::CommandIgnored(cmd) => cmd is DeleteTexture,
        _ => false,
    }
}

/// A presentation-link detach notification.
pub open spec fn is_dom_detach_event(e: TexEvent) -> bool {
    e is DomDetach
}

/// Binding to one target and then to a different one always fails with
/// `InvalidOperation`, leaving the state exactly as the first bind left it.
pub proof fn lemma_bind_then_bind_mismatch(s: TexView, t1: u32, t2: u32)
    requires
        s.spec_bind(t1).1 is Ok,
        t1 != t2,
    ensures
        s.spec_bind(t1).0.spec_bind(t2) == (
            s.spec_bind(t1).0,
            Err::<(), WebGLError>(WebGLError::InvalidOperation),
        ),
{
}

/// Binding twice to the same target succeeds both times, and the second
/// bind is a complete no-op: only the first successful bind emits the bind
/// command.
pub proof fn lemma_bind_then_bind_same(s: TexView, t: u32)
    requires
        s.spec_bind(t).1 is Ok,
    ensures
        s.spec_bind(t).0.spec_bind(t) == (s.spec_bind(t).0, Ok::<(), WebGLError>(())),
{
}

/// Generating mipmaps with no bound target, or with an uninitialized base
/// image, always fails with `InvalidOperation` and emits no command.
pub proof fn lemma_generate_mipmap_uninitialized(s: TexView)
    requires
        s.target is None || !s.base_image().is_initialized,
    ensures
        s.spec_generate_mipmap() == (s, Err::<(), WebGLError>(WebGLError::InvalidOperation)),
{
}

/// Once a texture is deleted, no operation but the delete cleanup itself
/// ever emits anything: bind, tex_parameter and generate_mipmap all fail
/// with `InvalidOperation` and leave the state, event log included,
/// untouched.
pub proof fn lemma_no_commands_after_delete(
    s: TexView,
    target: u32,
    param: u32,
    value: TexParameterValue,
)
    requires
        s.is_deleted,
    ensures
        s.spec_bind(target) == (s, Err::<(), WebGLError>(WebGLError::InvalidOperation)),
        s.spec_tex_parameter(param, value) == (
            s,
            Err::<(), WebGLError>(WebGLError::InvalidOperation),
        ),
        s.spec_generate_mipmap() == (s, Err::<(), WebGLError>(WebGLError::InvalidOperation)),
{
}

/// A live cube map whose six base faces are cube-complete, with
/// power-of-two base dimensions (depth included) and an uncompressed
/// format, generates successfully: exactly the generate-mipmap command is
/// appended, and every face of every written derived level carries the
/// same halved image.
pub proof fn lemma_generate_mipmap_cube_success(s: TexView)
    requires
        s.wf(),
        !s.is_deleted,
        s.target == Some(TEXTURE_CUBE_MAP),
        s.base_image().is_initialized,
        s.spec_cube_complete(),
        s.base_image().spec_is_power_of_two(),
        !s.base_image().spec_is_compressed_format(),
    ensures
        ({
            let (post, res) = s.spec_generate_mipmap();
            let base = s.base_image();
            let first = s.base_mipmap_level as int;
            let last = first + base.spec_max_mipmap_levels() as int - 1;
            &&& res is Ok
            &&& post.events == s.events.push(
                TexEvent::Command(WebGLCommand::GenerateMipmap(TEXTURE_CUBE_MAP)),
            )
            &&& forall|level: int, face: int|
                first < level < last && 0 <= face < 6 && spec_chain_alive(
                    base,
                    (level - first) as nat,
                ) ==> post.images[post.slot(level, face)] == spec_derived_info(
                    base,
                    (level - first) as nat,
                )
        }),
{
    let base = s.base_image();
    lemma_pow2_value_pos(base.width);
    lemma_pow2_value_pos(base.height);
    lemma_pow2_value_pos(base.depth);
    lemma_floor_log2_u32(base.spec_largest_dim());
    let (post, res) = s.spec_generate_mipmap();
    let first = s.base_mipmap_level as int;
    let last = first + base.spec_max_mipmap_levels() as int - 1;
    assert forall|level: int, face: int|
        first < level < last && 0 <= face < 6 && spec_chain_alive(
            base,
            (level - first) as nat,
        ) implies post.images[post.slot(level, face)] == spec_derived_info(
        base,
        (level - first) as nat,
    ) by {
        lemma_slot_in_bounds(post, level, face);
        lemma_level_of_slot(6, level, post.slot(level, face));
    };
}

/// A cube map whose six base faces are not cube-complete fails mipmap
/// generation with `InvalidOperation` and performs no mutation at all.
pub proof fn lemma_generate_mipmap_cube_incomplete(s: TexView)
    requires
        s.target == Some(TEXTURE_CUBE_MAP),
        !s.spec_cube_complete(),
    ensures
        s.spec_generate_mipmap() == (s, Err::<(), WebGLError>(WebGLError::InvalidOperation)),
{
}

/// On a live texture the min-filter parameter accepts exactly the six
/// defined enumerators; every other value fails with `InvalidEnum` and
/// changes nothing.
pub proof fn lemma_min_filter_enum_exact(s: TexView, value: TexParameterValue)
    requires
        !s.is_deleted,
    ensures
        s.spec_tex_parameter(TEXTURE_MIN_FILTER, value).1 is Ok <==> spec_is_min_filter(
            spec_param_int(value),
        ),
        !spec_is_min_filter(spec_param_int(value)) ==> s.spec_tex_parameter(
            TEXTURE_MIN_FILTER,
            value,
        ) == (s, Err::<(), WebGLError>(WebGLError::InvalidEnum)),
{
}

/// Setting the min filter to the same legal value twice emits the command
/// at most once: after a successful call, repeating it changes nothing and
/// emits nothing.
pub proof fn lemma_min_filter_set_twice(s: TexView, value: TexParameterValue)
    requires
        s.spec_tex_parameter(TEXTURE_MIN_FILTER, value).1 is Ok,
    ensures
        s.spec_tex_parameter(TEXTURE_MIN_FILTER, value).0.spec_tex_parameter(
            TEXTURE_MIN_FILTER,
            value,
        ) == (s.spec_tex_parameter(TEXTURE_MIN_FILTER, value).0, Ok::<(), WebGLError>(())),
{
}

/// On a live texture the anisotropy parameter accepts exactly the values
/// that read, as a float, at least 1; NaN and everything below 1 fail with
/// `InvalidValue` and change nothing.
pub proof fn lemma_anisotropy_exact(s: TexView, value: TexParameterValue)
    requires
        !s.is_deleted,
    ensures
        s.spec_tex_parameter(TEXTURE_MAX_ANISOTROPY_EXT, value).1 is Ok
            <==> spec_anisotropy_at_least_one(value),
        !spec_anisotropy_at_least_one(value) ==> s.spec_tex_parameter(
            TEXTURE_MAX_ANISOTROPY_EXT,
            value,
        ) == (s, Err::<(), WebGLError>(WebGLError::InvalidValue)),
{
}

/// A must-deliver delete followed by a tolerated one (the implicit cleanup
/// path) deletes exactly once: the second call is a complete no-op, the
/// whole interaction appends exactly one delete command — the last event —
/// and at most one presentation-link detach, whatever the framebuffer state
/// was at either call.
pub proof fn lemma_delete_exactly_once(s: TexView, fb1: bool, fb2: bool)
    requires
        !s.is_deleted,
    ensures
        ({
            let s1 = s.spec_delete(false, fb1);
            let s2 = s1.spec_delete(true, fb2);
            &&& s2 == s1
            &&& s1.events.len() > s.events.len()
            &&& s1.events.last() == TexEvent::Command(WebGLCommand::DeleteTexture(s.id))
            &&& forall|i: int|
                s.events.len() <= i < s1.events.len() - 1 ==> !is_delete_event(
                    #[trigger] s1.events[i],
                )
            &&& forall|i: int, j: int|
                s.events.len() <= i < j < s1.events.len() && is_dom_detach_event(
                    #[trigger] s1.events[i],
                ) ==> !is_dom_detach_event(#[trigger] s1.events[j])
        }),
{
}

/// When a framebuffer is bound at deletion time, the framebuffer detach
/// hook is invoked strictly before the delete command reaches the event
/// log: the detach is the second-to-last event, the delete the last, so the
/// executor can never observe the delete first.
pub proof fn lemma_delete_detach_before_delete(s: TexView, fallible: bool)
    requires
        !s.is_deleted,
    ensures
        ({
            let s1 = s.spec_delete(fallible, true);
            &&& s1.events.len() >= s.events.len() + 2
            &&& s1.events[s1.events.len() - 2] == TexEvent::FramebufferDetach(s.id)
            &&& is_delete_event(s1.events.last())
            &&& s1.events.last() == (if fallible {
                TexEvent::CommandIgnored(WebGLCommand::DeleteTexture(s.id))
            } else {
                TexEvent::Command(WebGLCommand::DeleteTexture(s.id))
            })
        }),
{
}

} // verus!
