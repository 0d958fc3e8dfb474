use webgl_texture::commands::{TexEvent, WebGLCommand};
use webgl_texture::constants::{
    CLAMP_TO_EDGE, LINEAR, LINEAR_MIPMAP_LINEAR, LINEAR_MIPMAP_NEAREST, NEAREST,
    NEAREST_MIPMAP_LINEAR, NEAREST_MIPMAP_NEAREST, REPEAT, TEXTURE_2D, TEXTURE_CUBE_MAP,
    TEXTURE_MAG_FILTER, TEXTURE_MAX_ANISOTROPY_EXT, TEXTURE_MIN_FILTER, TEXTURE_WRAP_S,
    TEXTURE_WRAP_T,
};
use webgl_texture::error::WebGLError;
use webgl_texture::texture::WebGLTexture;
use webgl_texture::types::{TexDataType, TexFormat, TexImageTarget, TexParameterValue};

fn bound_2d(id: u32) -> WebGLTexture {
    let mut t = WebGLTexture::new(id);
    t.bind(TEXTURE_2D).unwrap();
    t.clear_events();
    t
}

fn bound_cube(id: u32) -> WebGLTexture {
    let mut t = WebGLTexture::new(id);
    t.bind(TEXTURE_CUBE_MAP).unwrap();
    t.clear_events();
    t
}

const CUBE_FACES: [TexImageTarget; 6] = [
    TexImageTarget::CubeMapPositiveX,
    TexImageTarget::CubeMapNegativeX,
    TexImageTarget::CubeMapPositiveY,
    TexImageTarget::CubeMapNegativeY,
    TexImageTarget::CubeMapPositiveZ,
    TexImageTarget::CubeMapNegativeZ,
];

#[test]
fn bind_first_time_2d() {
    let mut t = WebGLTexture::new(1);
    assert_eq!(t.target(), None);
    assert_eq!(t.bind(TEXTURE_2D), Ok(()));
    assert_eq!(t.target(), Some(TEXTURE_2D));
    assert_eq!(
        t.events().as_slice(),
        &[TexEvent::Command(WebGLCommand::BindTexture(TEXTURE_2D, 1))]
    );
}

#[test]
fn bind_same_target_twice_is_idempotent() {
    let mut t = WebGLTexture::new(2);
    assert_eq!(t.bind(TEXTURE_CUBE_MAP), Ok(()));
    assert_eq!(t.bind(TEXTURE_CUBE_MAP), Ok(()));
    assert_eq!(t.target(), Some(TEXTURE_CUBE_MAP));
    // only the first successful bind emits the bind command; the second is
    // a complete no-op
    assert_eq!(
        t.events().as_slice(),
        &[TexEvent::Command(WebGLCommand::BindTexture(TEXTURE_CUBE_MAP, 2))]
    );
}

#[test]
fn bind_different_target_fails() {
    let mut t = WebGLTexture::new(3);
    assert_eq!(t.bind(TEXTURE_2D), Ok(()));
    assert_eq!(t.bind(TEXTURE_CUBE_MAP), Err(WebGLError::InvalidOperation));
    assert_eq!(t.target(), Some(TEXTURE_2D));
    assert_eq!(t.events().len(), 1);
}

#[test]
fn bind_unknown_target_fails() {
    let mut t = WebGLTexture::new(4);
    assert_eq!(t.bind(0x1234), Err(WebGLError::InvalidEnum));
    assert_eq!(t.target(), None);
    assert!(t.events().is_empty());
}

#[test]
fn bind_after_delete_fails() {
    let mut t = WebGLTexture::new(5);
    t.delete(false, false);
    assert_eq!(t.bind(TEXTURE_2D), Err(WebGLError::InvalidOperation));
}

#[test]
fn generate_mipmap_after_delete_fails() {
    let mut t = bound_2d(31);
    t.initialize(
        TexImageTarget::Texture2D,
        16,
        16,
        1,
        TexFormat::Rgba,
        0,
        Some(TexDataType::UnsignedByte),
    )
    .unwrap();
    t.delete(false, false);
    t.clear_events();
    // once deleted, nothing but delete cleanup is ever emitted
    assert_eq!(t.generate_mipmap(), Err(WebGLError::InvalidOperation));
    assert!(t.events().is_empty());
    assert!(!t.image_info_at_face(0, 1).is_initialized());
}

#[test]
fn tex_parameter_after_delete_fails() {
    let mut t = bound_2d(32);
    t.delete(false, false);
    t.clear_events();
    assert_eq!(
        t.tex_parameter(TEXTURE_MIN_FILTER, TexParameterValue::Int(NEAREST as i32)),
        Err(WebGLError::InvalidOperation)
    );
    assert_eq!(
        t.tex_parameter(TEXTURE_WRAP_S, TexParameterValue::Int(REPEAT as i32)),
        Err(WebGLError::InvalidOperation)
    );
    assert_eq!(
        t.tex_parameter(
            TEXTURE_MAX_ANISOTROPY_EXT,
            TexParameterValue::Float(2.0f32.to_bits())
        ),
        Err(WebGLError::InvalidOperation)
    );
    assert!(t.events().is_empty());
    assert_eq!(t.min_filter(), NEAREST_MIPMAP_LINEAR);
}

#[test]
fn generate_mipmap_without_target_fails() {
    let mut t = WebGLTexture::new(6);
    assert_eq!(t.generate_mipmap(), Err(WebGLError::InvalidOperation));
    assert!(t.events().is_empty());
}

#[test]
fn generate_mipmap_uninitialized_base_fails() {
    let mut t = bound_2d(7);
    assert_eq!(t.generate_mipmap(), Err(WebGLError::InvalidOperation));
    assert!(t.events().is_empty());
}

#[test]
fn generate_mipmap_16x16_gives_five_levels() {
    let mut t = bound_2d(8);
    t.initialize(
        TexImageTarget::Texture2D,
        16,
        16,
        1,
        TexFormat::Rgba,
        0,
        Some(TexDataType::UnsignedByte),
    )
    .unwrap();
    // the full chain 16 -> 8 -> 4 -> 2 -> 1 spans five levels
    assert_eq!(
        t.image_info_for_target(&TexImageTarget::Texture2D, 0)
            .max_mipmap_levels(),
        5
    );
    assert_eq!(t.generate_mipmap(), Ok(()));
    assert_eq!(
        t.events().as_slice(),
        &[TexEvent::Command(WebGLCommand::GenerateMipmap(TEXTURE_2D))]
    );
    let expected = [(0, 16), (1, 8), (2, 4), (3, 2)];
    for (level, dim) in expected {
        let info = t.image_info_at_face(0, level);
        assert!(info.is_initialized());
        assert_eq!(info.width(), dim);
        assert_eq!(info.height(), dim);
        assert_eq!(info.internal_format(), Some(TexFormat::Rgba));
        assert_eq!(info.data_type(), Some(TexDataType::UnsignedByte));
    }
    // population runs strictly below the last level, which stays untouched
    assert!(!t.image_info_at_face(0, 4).is_initialized());
}

#[test]
fn generate_mipmap_halves_both_dimensions() {
    let mut t = bound_2d(9);
    t.initialize(
        TexImageTarget::Texture2D,
        16,
        8,
        1,
        TexFormat::Rgb,
        0,
        Some(TexDataType::UnsignedByte),
    )
    .unwrap();
    assert_eq!(t.generate_mipmap(), Ok(()));
    let dims = [(1, 8, 4), (2, 4, 2), (3, 2, 1)];
    for (level, w, h) in dims {
        let info = t.image_info_at_face(0, level);
        assert_eq!((info.width(), info.height()), (w, h));
        // depth is zeroed on derived levels
        assert_eq!(info.depth(), 0);
    }
}

#[test]
fn generate_mipmap_non_power_of_two_fails() {
    let mut t = bound_2d(10);
    t.initialize(
        TexImageTarget::Texture2D,
        15,
        15,
        1,
        TexFormat::Rgba,
        0,
        Some(TexDataType::UnsignedByte),
    )
    .unwrap();
    assert_eq!(t.generate_mipmap(), Err(WebGLError::InvalidOperation));
    assert!(t.events().is_empty());
    assert!(!t.image_info_at_face(0, 1).is_initialized());
}

#[test]
fn generate_mipmap_zero_sized_base_fails() {
    let mut t = bound_2d(11);
    t.initialize(
        TexImageTarget::Texture2D,
        0,
        0,
        0,
        TexFormat::Rgba,
        0,
        Some(TexDataType::UnsignedByte),
    )
    .unwrap();
    // 0 is not a power of two, so an all-zero base yields no levels
    assert_eq!(t.generate_mipmap(), Err(WebGLError::InvalidOperation));
    assert!(t.events().is_empty());
}

#[test]
fn generate_mipmap_compressed_format_fails() {
    let mut t = bound_2d(12);
    t.initialize(
        TexImageTarget::Texture2D,
        16,
        16,
        1,
        TexFormat::CompressedRgbS3tcDxt1,
        0,
        None,
    )
    .unwrap();
    assert_eq!(t.generate_mipmap(), Err(WebGLError::InvalidOperation));
    assert!(t.events().is_empty());
}

#[test]
fn cube_map_complete_generates_all_faces() {
    let mut t = bound_cube(13);
    for face in CUBE_FACES {
        t.initialize(face, 8, 8, 1, TexFormat::Rgba, 0, Some(TexDataType::UnsignedByte))
            .unwrap();
    }
    assert_eq!(t.generate_mipmap(), Ok(()));
    assert_eq!(
        t.events().as_slice(),
        &[TexEvent::Command(WebGLCommand::GenerateMipmap(TEXTURE_CUBE_MAP))]
    );
    // every face of every derived level gets the same halved image
    for face in 0..6 {
        let info = t.image_info_at_face(face, 1);
        assert!(info.is_initialized());
        assert_eq!((info.width(), info.height()), (4, 4));
        let info = t.image_info_at_face(face, 2);
        assert_eq!((info.width(), info.height()), (2, 2));
    }
}

#[test]
fn cube_map_face_with_other_format_fails() {
    let mut t = bound_cube(14);
    for face in CUBE_FACES {
        let format = if face == TexImageTarget::CubeMapNegativeY {
            TexFormat::Rgb
        } else {
            TexFormat::Rgba
        };
        t.initialize(face, 8, 8, 1, format, 0, Some(TexDataType::UnsignedByte))
            .unwrap();
    }
    assert_eq!(t.generate_mipmap(), Err(WebGLError::InvalidOperation));
    assert!(t.events().is_empty());
    assert!(!t.image_info_at_face(0, 1).is_initialized());
}

#[test]
fn cube_map_face_with_other_size_fails() {
    let mut t = bound_cube(15);
    for face in CUBE_FACES {
        let width = if face == TexImageTarget::CubeMapPositiveZ { 4 } else { 8 };
        t.initialize(face, width, 8, 1, TexFormat::Rgba, 0, Some(TexDataType::UnsignedByte))
            .unwrap();
    }
    assert_eq!(t.generate_mipmap(), Err(WebGLError::InvalidOperation));
    assert!(t.events().is_empty());
}

#[test]
fn cube_map_missing_face_fails() {
    let mut t = bound_cube(16);
    for face in CUBE_FACES {
        if face == TexImageTarget::CubeMapNegativeZ {
            continue;
        }
        t.initialize(face, 8, 8, 1, TexFormat::Rgba, 0, Some(TexDataType::UnsignedByte))
            .unwrap();
    }
    assert_eq!(t.generate_mipmap(), Err(WebGLError::InvalidOperation));
}

#[test]
fn cube_map_rectangular_faces_fail_square_check() {
    // every face is 8x4, all equal to each other; the completeness check
    // compares each height against the reference width, so non-square
    // faces are rejected even when mutually consistent
    let mut t = bound_cube(17);
    for face in CUBE_FACES {
        t.initialize(face, 8, 4, 1, TexFormat::Rgba, 0, Some(TexDataType::UnsignedByte))
            .unwrap();
    }
    assert_eq!(t.generate_mipmap(), Err(WebGLError::InvalidOperation));
}

#[test]
fn min_filter_accepts_exactly_the_six_enumerators() {
    let mut t = bound_2d(18);
    for value in [
        NEAREST,
        LINEAR,
        NEAREST_MIPMAP_NEAREST,
        LINEAR_MIPMAP_NEAREST,
        NEAREST_MIPMAP_LINEAR,
        LINEAR_MIPMAP_LINEAR,
    ] {
        assert_eq!(
            t.tex_parameter(TEXTURE_MIN_FILTER, TexParameterValue::Int(value as i32)),
            Ok(())
        );
        assert_eq!(t.min_filter(), value);
    }
    for bad in [0u32, 0x2604, REPEAT, TEXTURE_MIN_FILTER] {
        assert_eq!(
            t.tex_parameter(TEXTURE_MIN_FILTER, TexParameterValue::Int(bad as i32)),
            Err(WebGLError::InvalidEnum)
        );
    }
}

#[test]
fn min_filter_same_value_twice_emits_once() {
    let mut t = bound_2d(19);
    assert_eq!(
        t.tex_parameter(TEXTURE_MIN_FILTER, TexParameterValue::Int(LINEAR as i32)),
        Ok(())
    );
    assert_eq!(
        t.tex_parameter(TEXTURE_MIN_FILTER, TexParameterValue::Int(LINEAR as i32)),
        Ok(())
    );
    assert_eq!(
        t.events().as_slice(),
        &[TexEvent::Command(WebGLCommand::TexParameteri(
            TEXTURE_2D,
            TEXTURE_MIN_FILTER,
            LINEAR as i32
        ))]
    );
}

#[test]
fn min_filter_accepts_float_tagged_enumerator() {
    let mut t = bound_2d(20);
    let bits = (NEAREST as f32).to_bits();
    assert_eq!(
        t.tex_parameter(TEXTURE_MIN_FILTER, TexParameterValue::Float(bits)),
        Ok(())
    );
    assert_eq!(t.min_filter(), NEAREST);
}

#[test]
fn mag_filter_accepts_exactly_two_enumerators() {
    let mut t = bound_2d(21);
    assert_eq!(
        t.tex_parameter(TEXTURE_MAG_FILTER, TexParameterValue::Int(NEAREST as i32)),
        Ok(())
    );
    assert_eq!(t.mag_filter(), NEAREST);
    assert_eq!(
        t.tex_parameter(TEXTURE_MAG_FILTER, TexParameterValue::Int(LINEAR as i32)),
        Ok(())
    );
    assert_eq!(
        t.tex_parameter(
            TEXTURE_MAG_FILTER,
            TexParameterValue::Int(NEAREST_MIPMAP_NEAREST as i32)
        ),
        Err(WebGLError::InvalidEnum)
    );
}

#[test]
fn wrap_modes_always_emit_even_when_repeated() {
    let mut t = bound_2d(22);
    assert_eq!(
        t.tex_parameter(TEXTURE_WRAP_S, TexParameterValue::Int(REPEAT as i32)),
        Ok(())
    );
    assert_eq!(
        t.tex_parameter(TEXTURE_WRAP_S, TexParameterValue::Int(REPEAT as i32)),
        Ok(())
    );
    assert_eq!(
        t.tex_parameter(TEXTURE_WRAP_T, TexParameterValue::Int(CLAMP_TO_EDGE as i32)),
        Ok(())
    );
    assert_eq!(t.events().len(), 3);
    assert_eq!(
        t.tex_parameter(TEXTURE_WRAP_S, TexParameterValue::Int(LINEAR as i32)),
        Err(WebGLError::InvalidEnum)
    );
}

#[test]
fn anisotropy_rejects_below_one_and_nan() {
    let mut t = bound_2d(23);
    assert_eq!(
        t.tex_parameter(
            TEXTURE_MAX_ANISOTROPY_EXT,
            TexParameterValue::Float(0.5f32.to_bits())
        ),
        Err(WebGLError::InvalidValue)
    );
    assert_eq!(
        t.tex_parameter(
            TEXTURE_MAX_ANISOTROPY_EXT,
            TexParameterValue::Float(f32::NAN.to_bits())
        ),
        Err(WebGLError::InvalidValue)
    );
    assert_eq!(
        t.tex_parameter(
            TEXTURE_MAX_ANISOTROPY_EXT,
            TexParameterValue::Float((-4.0f32).to_bits())
        ),
        Err(WebGLError::InvalidValue)
    );
    assert_eq!(
        t.tex_parameter(TEXTURE_MAX_ANISOTROPY_EXT, TexParameterValue::Int(0)),
        Err(WebGLError::InvalidValue)
    );
    assert!(t.events().is_empty());
}

#[test]
fn anisotropy_accepts_one_and_above() {
    let mut t = bound_2d(24);
    let one = 1.0f32.to_bits();
    assert_eq!(
        t.tex_parameter(TEXTURE_MAX_ANISOTROPY_EXT, TexParameterValue::Float(one)),
        Ok(())
    );
    assert_eq!(
        t.tex_parameter(
            TEXTURE_MAX_ANISOTROPY_EXT,
            TexParameterValue::Float(2.5f32.to_bits())
        ),
        Ok(())
    );
    assert_eq!(
        t.tex_parameter(
            TEXTURE_MAX_ANISOTROPY_EXT,
            TexParameterValue::Float(f32::INFINITY.to_bits())
        ),
        Ok(())
    );
    assert_eq!(
        t.tex_parameter(TEXTURE_MAX_ANISOTROPY_EXT, TexParameterValue::Int(3)),
        Ok(())
    );
    assert_eq!(
        t.events()[0],
        TexEvent::Command(WebGLCommand::TexParameterf(
            TEXTURE_2D,
            TEXTURE_MAX_ANISOTROPY_EXT,
            TexParameterValue::Float(one)
        ))
    );
    assert_eq!(t.events().len(), 4);
}

#[test]
fn unknown_parameter_fails() {
    let mut t = bound_2d(25);
    assert_eq!(
        t.tex_parameter(0x9999, TexParameterValue::Int(1)),
        Err(WebGLError::InvalidEnum)
    );
}

#[test]
fn delete_twice_emits_one_delete_command() {
    let mut t = bound_2d(26);
    t.delete(false, false);
    assert!(t.is_deleted());
    t.delete(true, false);
    let deletes: Vec<_> = t
        .events()
        .iter()
        .filter(|e| {
            matches!(
                e,
                TexEvent::Command(WebGLCommand::DeleteTexture(_))
                    | TexEvent::CommandIgnored(WebGLCommand::DeleteTexture(_))
            )
        })
        .collect();
    assert_eq!(deletes.len(), 1);
    assert_eq!(
        t.events().last(),
        Some(&TexEvent::Command(WebGLCommand::DeleteTexture(26)))
    );
}

#[test]
fn delete_attached_to_dom_detaches_once() {
    let mut t = bound_2d(27);
    t.set_attached_to_dom();
    t.delete(false, false);
    t.delete(true, false);
    let detaches: Vec<_> = t
        .events()
        .iter()
        .filter(|e| matches!(e, TexEvent::DomDetach(_)))
        .collect();
    assert_eq!(detaches.len(), 1);
    assert_eq!(
        t.events().as_slice(),
        &[
            TexEvent::DomDetach(27),
            TexEvent::Command(WebGLCommand::DeleteTexture(27))
        ]
    );
}

#[test]
fn delete_detaches_framebuffer_before_delete_command() {
    let mut t = bound_2d(28);
    t.set_attached_to_dom();
    t.delete(true, true);
    assert_eq!(
        t.events().as_slice(),
        &[
            TexEvent::DomDetach(28),
            TexEvent::FramebufferDetach(28),
            TexEvent::CommandIgnored(WebGLCommand::DeleteTexture(28)),
        ]
    );
    // the framebuffer detach strictly precedes the delete command
    let detach_pos = t
        .events()
        .iter()
        .position(|e| matches!(e, TexEvent::FramebufferDetach(_)))
        .unwrap();
    let delete_pos = t
        .events()
        .iter()
        .position(|e| matches!(e, TexEvent::CommandIgnored(WebGLCommand::DeleteTexture(_))))
        .unwrap();
    assert!(detach_pos < delete_pos);
}

#[test]
fn linear_filtering_reflects_both_filters() {
    let mut t = bound_2d(29);
    // defaults: min NEAREST_MIPMAP_LINEAR, mag LINEAR
    assert!(t.is_using_linear_filtering());
    t.tex_parameter(TEXTURE_MIN_FILTER, TexParameterValue::Int(NEAREST as i32))
        .unwrap();
    assert!(t.is_using_linear_filtering());
    t.tex_parameter(TEXTURE_MAG_FILTER, TexParameterValue::Int(NEAREST as i32))
        .unwrap();
    assert!(!t.is_using_linear_filtering());
}

#[test]
fn maybe_new_mirrors_the_allocation_reply() {
    assert!(WebGLTexture::maybe_new(None).is_none());
    let t = WebGLTexture::maybe_new(Some(41)).unwrap();
    assert_eq!(t.id(), 41);
    assert!(!t.is_deleted());
    assert_eq!(t.min_filter(), NEAREST_MIPMAP_LINEAR);
    assert_eq!(t.mag_filter(), LINEAR);
}

#[test]
fn image_slots_default_until_written() {
    let mut t = bound_2d(30);
    let info = t.image_info_at_face(0, 5);
    assert!(!info.is_initialized());
    assert_eq!(info.width(), 0);
    assert_eq!(info.internal_format(), None);
    assert_eq!(info.data_type(), None);
    t.initialize(
        TexImageTarget::Texture2D,
        32,
        64,
        2,
        TexFormat::Luminance,
        5,
        Some(TexDataType::UnsignedShort565),
    )
    .unwrap();
    let info = t.image_info_for_target(&TexImageTarget::Texture2D, 5);
    assert!(info.is_initialized());
    assert_eq!((info.width(), info.height(), info.depth()), (32, 64, 2));
    assert_eq!(info.internal_format(), Some(TexFormat::Luminance));
    assert_eq!(info.data_type(), Some(TexDataType::UnsignedShort565));
    // initializing emits nothing: the pixel upload is a collaborator's call
    assert!(t.events().is_empty());
}
