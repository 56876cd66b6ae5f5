use glwrap::calls::GlCall;
use glwrap::texture::{Image, LoadRequest, LoadResult, Texture, TextureError, TEXTURE_UNITS};

#[test]
fn texture_constants_are_those_of_the_bindings() {
    assert_eq!(glwrap::calls::TEXTURE0, gl::TEXTURE0);
    assert_eq!(glwrap::calls::TEXTURE_2D, gl::TEXTURE_2D);
    assert_eq!(glwrap::calls::TEXTURE_MAG_FILTER, gl::TEXTURE_MAG_FILTER);
    assert_eq!(glwrap::calls::TEXTURE_MIN_FILTER, gl::TEXTURE_MIN_FILTER);
    assert_eq!(glwrap::calls::TEXTURE_WRAP_S, gl::TEXTURE_WRAP_S);
    assert_eq!(glwrap::calls::TEXTURE_WRAP_T, gl::TEXTURE_WRAP_T);
    assert_eq!(glwrap::calls::REPEAT, gl::REPEAT);
    assert_eq!(glwrap::calls::LINEAR, gl::LINEAR);
    assert_eq!(glwrap::calls::RGB, gl::RGB);
    assert_eq!(glwrap::calls::UNSIGNED_BYTE, gl::UNSIGNED_BYTE);
}

#[test]
fn every_unit_selects_the_constant_of_its_number() {
    let expected: [u32; 16] = [
        gl::TEXTURE0,
        gl::TEXTURE1,
        gl::TEXTURE2,
        gl::TEXTURE3,
        gl::TEXTURE4,
        gl::TEXTURE5,
        gl::TEXTURE6,
        gl::TEXTURE7,
        gl::TEXTURE8,
        gl::TEXTURE9,
        gl::TEXTURE10,
        gl::TEXTURE11,
        gl::TEXTURE12,
        gl::TEXTURE13,
        gl::TEXTURE14,
        gl::TEXTURE15,
    ];
    assert_eq!(TEXTURE_UNITS, 16);
    for unit in 0..TEXTURE_UNITS {
        assert_eq!(Texture::unit_to_gl_const(unit), expected[unit as usize]);
    }
}

#[test]
fn unit_selectors_have_their_exact_values() {
    assert_eq!(Texture::unit_to_gl_const(0), 0x84C0);
    assert_eq!(Texture::unit_to_gl_const(1), 0x84C1);
    assert_eq!(Texture::unit_to_gl_const(15), 0x84CF);
}

#[test]
fn bind_selects_the_unit_then_binds() {
    let texture = Texture::new(7);
    assert_eq!(
        texture.bind(0),
        vec![
            GlCall::ActiveTexture { unit: gl::TEXTURE0 },
            GlCall::BindTexture { target: gl::TEXTURE_2D, texture: 7 },
        ]
    );
    assert_eq!(
        texture.bind(15),
        vec![
            GlCall::ActiveTexture { unit: gl::TEXTURE15 },
            GlCall::BindTexture { target: gl::TEXTURE_2D, texture: 7 },
        ]
    );
}

#[test]
fn default_parameters_repeat_and_filter_linearly() {
    let (texture, calls) = Texture::new(3).set_default_parameters();
    assert_eq!(
        calls,
        vec![
            GlCall::BindTexture { target: gl::TEXTURE_2D, texture: 3 },
            GlCall::TexParameteri {
                target: gl::TEXTURE_2D,
                pname: gl::TEXTURE_WRAP_S,
                param: gl::REPEAT as i32,
            },
            GlCall::TexParameteri {
                target: gl::TEXTURE_2D,
                pname: gl::TEXTURE_WRAP_T,
                param: gl::REPEAT as i32,
            },
            GlCall::TexParameteri {
                target: gl::TEXTURE_2D,
                pname: gl::TEXTURE_MIN_FILTER,
                param: gl::LINEAR as i32,
            },
            GlCall::TexParameteri {
                target: gl::TEXTURE_2D,
                pname: gl::TEXTURE_MAG_FILTER,
                param: gl::LINEAR as i32,
            },
        ]
    );
    // The texture that comes back is the one that went in.
    assert_eq!(
        texture.bind(1)[1],
        GlCall::BindTexture { target: gl::TEXTURE_2D, texture: 3 }
    );
}

#[test]
fn load_request_asks_for_flipped_three_byte_pixels() {
    assert_eq!(
        Texture::load_request("assets/textures/wall.jpg"),
        LoadRequest {
            path: "assets/textures/wall.jpg".to_string(),
            flip_vertically: true,
            force_depth: 3,
            convert_hdr: false,
        }
    );
}

#[test]
fn load_image_uploads_bytes_and_builds_mipmaps() {
    let pixels: Vec<u8> = vec![1, 2, 3, 4, 5, 6, 7, 8, 9, 10, 11, 12, 13, 14, 15, 16, 17, 18];
    let image = Image { width: 2, height: 3, depth: 3, data: pixels.clone() };
    let filled = Texture::new(4).load_image(LoadResult::ImageU8(image));
    let (texture, calls) = filled.unwrap();
    assert_eq!(
        calls,
        vec![
            GlCall::BindTexture { target: gl::TEXTURE_2D, texture: 4 },
            GlCall::TexImage2D {
                target: gl::TEXTURE_2D,
                level: 0,
                internal_format: gl::RGB as i32,
                width: 2,
                height: 3,
                border: 0,
                format: gl::RGB,
                kind: gl::UNSIGNED_BYTE,
                pixels,
            },
            GlCall::GenerateMipmap { target: gl::TEXTURE_2D },
        ]
    );
    assert_eq!(
        texture.bind(0)[1],
        GlCall::BindTexture { target: gl::TEXTURE_2D, texture: 4 }
    );
}

#[test]
fn load_image_of_an_empty_image_still_uploads() {
    let image = Image { width: 0, height: 0, depth: 3, data: Vec::new() };
    let (_, calls) = Texture::new(1).load_image(LoadResult::ImageU8(image)).unwrap();
    assert_eq!(calls.len(), 3);
    assert_eq!(
        calls[1],
        GlCall::TexImage2D {
            target: 0x0DE1,
            level: 0,
            internal_format: 0x1907,
            width: 0,
            height: 0,
            border: 0,
            format: 0x1907,
            kind: 0x1401,
            pixels: Vec::new(),
        }
    );
}

#[test]
fn load_image_refuses_floating_point_samples() {
    let filled = Texture::new(4).load_image(LoadResult::ImageF32);
    assert_eq!(filled.unwrap_err(), TextureError::FormatNotSupported);
}

#[test]
fn load_image_hands_on_the_decoder_word() {
    let filled = Texture::new(4).load_image(LoadResult::Error("stbi_load failed".to_string()));
    assert_eq!(
        filled.unwrap_err(),
        TextureError::LoadError { msg: "stbi_load failed".to_string() }
    );
}

#[test]
fn texture_errors_describe_themselves() {
    assert_eq!(
        TextureError::FormatNotSupported.message(),
        "Image format F32 is not supported"
    );
    assert_eq!(
        TextureError::LoadError { msg: "stbi_load failed".to_string() }.message(),
        "Cannot load texture image: stbi_load failed"
    );
    assert_eq!(
        TextureError::LoadError { msg: String::new() }.message(),
        "Cannot load texture image: "
    );
}
