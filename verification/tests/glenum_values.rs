use gl_nt::glenum;

#[test]
fn enumerants_match_the_gl_crate() {
    assert_eq!(glenum::FALSE, gl::FALSE);
    assert_eq!(glenum::TRIANGLES, gl::TRIANGLES);
    assert_eq!(glenum::UNSIGNED_BYTE, gl::UNSIGNED_BYTE);
    assert_eq!(glenum::UNSIGNED_INT, gl::UNSIGNED_INT);
    assert_eq!(glenum::FLOAT, gl::FLOAT);
    assert_eq!(glenum::ARRAY_BUFFER, gl::ARRAY_BUFFER);
    assert_eq!(glenum::ELEMENT_ARRAY_BUFFER, gl::ELEMENT_ARRAY_BUFFER);
    assert_eq!(glenum::STATIC_DRAW, gl::STATIC_DRAW);
    assert_eq!(glenum::TEXTURE_2D, gl::TEXTURE_2D);
    assert_eq!(glenum::TEXTURE0, gl::TEXTURE0);
    assert_eq!(glenum::TEXTURE_MAG_FILTER, gl::TEXTURE_MAG_FILTER);
    assert_eq!(glenum::TEXTURE_MIN_FILTER, gl::TEXTURE_MIN_FILTER);
    assert_eq!(glenum::TEXTURE_WRAP_S, gl::TEXTURE_WRAP_S);
    assert_eq!(glenum::TEXTURE_WRAP_T, gl::TEXTURE_WRAP_T);
    assert_eq!(glenum::REPEAT, gl::REPEAT);
    assert_eq!(glenum::MIRRORED_REPEAT, gl::MIRRORED_REPEAT);
    assert_eq!(glenum::CLAMP_TO_EDGE, gl::CLAMP_TO_EDGE);
    assert_eq!(glenum::CLAMP_TO_BORDER, gl::CLAMP_TO_BORDER);
    assert_eq!(glenum::NEAREST, gl::NEAREST);
    assert_eq!(glenum::LINEAR, gl::LINEAR);
    assert_eq!(glenum::LINEAR_MIPMAP_NEAREST, gl::LINEAR_MIPMAP_NEAREST);
    assert_eq!(glenum::LINEAR_MIPMAP_LINEAR, gl::LINEAR_MIPMAP_LINEAR);
    assert_eq!(glenum::RGB, gl::RGB);
    assert_eq!(glenum::RGBA, gl::RGBA);
    assert_eq!(glenum::RGBA8, gl::RGBA8);
    assert_eq!(glenum::FRAMEBUFFER, gl::FRAMEBUFFER);
    assert_eq!(glenum::COLOR_ATTACHMENT0, gl::COLOR_ATTACHMENT0);
    assert_eq!(glenum::FRAMEBUFFER_COMPLETE, gl::FRAMEBUFFER_COMPLETE);
    assert_eq!(glenum::FRAGMENT_SHADER, gl::FRAGMENT_SHADER);
    assert_eq!(glenum::VERTEX_SHADER, gl::VERTEX_SHADER);
    assert_eq!(glenum::GEOMETRY_SHADER, gl::GEOMETRY_SHADER);
    assert_eq!(glenum::COMPILE_STATUS, gl::COMPILE_STATUS);
    assert_eq!(glenum::LINK_STATUS, gl::LINK_STATUS);
    assert_eq!(glenum::INFO_LOG_LENGTH, gl::INFO_LOG_LENGTH);
    assert_eq!(glenum::DEPTH_BUFFER_BIT, gl::DEPTH_BUFFER_BIT);
    assert_eq!(glenum::COLOR_BUFFER_BIT, gl::COLOR_BUFFER_BIT);
}
