use std::collections::hash_map::DefaultHasher;
use std::hash::{Hash, Hasher};
use logic_nih_plug::gui::opengl::helpers::{framebuffer_reason, framebuffer_status_result, OpenGLHelpers};
use logic_nih_plug::gui::opengl::shader::ShaderType;
use logic_nih_plug::gui::opengl::texture::{TextureDataType, TextureFormat, TextureMinFilter};

#[test]
fn texture_data_type_mapping() {
    assert_eq!(TextureDataType::UnsignedByte.glow_type(), glow::UNSIGNED_BYTE);
    assert_eq!(TextureDataType::Float32.glow_type(), glow::FLOAT);
}

#[test]
fn texture_format_internal() {
    assert_eq!(TextureFormat::Rgba8.glow_internal(), glow::RGBA as i32);
    assert_eq!(TextureFormat::Rgb8.glow_internal(), glow::RGB as i32);
    assert_eq!(TextureFormat::Rgba32F.glow_internal(), glow::RGBA32F as i32);
    assert_eq!(TextureFormat::R32F.glow_internal(), glow::R32F as i32);
}

#[test]
fn texture_format_bytes_per_pixel() {
    assert_eq!(TextureFormat::Rgba8.bytes_per_pixel(), 4);
    assert_eq!(TextureFormat::Rgb8.bytes_per_pixel(), 3);
    assert_eq!(TextureFormat::Rgba32F.bytes_per_pixel(), 16);
    assert_eq!(TextureFormat::R32F.bytes_per_pixel(), 4);
}

#[test]
fn texture_format_default_data_type() {
    assert_eq!(TextureFormat::Rgba8.default_data_type(), TextureDataType::UnsignedByte);
    assert_eq!(TextureFormat::Rgba32F.default_data_type(), TextureDataType::Float32);
}

#[test]
fn texture_min_filter_mapping() {
    assert_eq!(TextureMinFilter::Nearest.glow_filter(), glow::NEAREST as i32);
    assert_eq!(TextureMinFilter::Linear.glow_filter(), glow::LINEAR as i32);
    assert_eq!(TextureMinFilter::LinearMipmapLinear.glow_filter(), glow::LINEAR_MIPMAP_LINEAR as i32);
}

#[test]
fn texture_format_debug() {
    assert_eq!(format!("{:?}", TextureFormat::Rgba8), "Rgba8");
    assert_eq!(format!("{:?}", TextureFormat::Rgb8), "Rgb8");
    assert_eq!(format!("{:?}", TextureFormat::Rgba32F), "Rgba32F");
}

#[test]
fn texture_data_type_debug() {
    assert_eq!(format!("{:?}", TextureDataType::UnsignedByte), "UnsignedByte");
    assert_eq!(format!("{:?}", TextureDataType::Float32), "Float32");
}

#[test]
fn texture_min_filter_debug() {
    assert_eq!(format!("{:?}", TextureMinFilter::Nearest), "Nearest");
    assert_eq!(format!("{:?}", TextureMinFilter::Linear), "Linear");
}

#[test]
fn texture_format_hash() {
    let mut h1 = DefaultHasher::new();
    let mut h2 = DefaultHasher::new();
    TextureFormat::Rgba8.hash(&mut h1);
    TextureFormat::Rgb8.hash(&mut h2);
    assert_ne!(h1.finish(), h2.finish());
}

#[test]
fn texture_min_filter_clone() {
    let f = TextureMinFilter::LinearMipmapLinear;
    let f2 = f;
    assert_eq!(f, f2);
}

#[test]
fn texture_format_pixel_formats() {
    assert_eq!(TextureFormat::Rgba8.glow_format(), glow::RGBA);
    assert_eq!(TextureFormat::Rgba32F.glow_format(), glow::RGBA);
    assert_eq!(TextureFormat::Rgb8.glow_format(), glow::RGB);
    assert_eq!(TextureFormat::R32F.glow_format(), glow::RED);
    assert_eq!(TextureFormat::Depth24Stencil8.glow_format(), glow::DEPTH_STENCIL);
    assert_eq!(TextureFormat::Depth24Stencil8.glow_internal(), glow::DEPTH24_STENCIL8 as i32);
    assert_eq!(TextureFormat::Depth24Stencil8.bytes_per_pixel(), 4);
}

#[test]
fn shader_type_glow_mapping() {
    assert_eq!(ShaderType::Vertex.glow_type(), glow::VERTEX_SHADER);
    assert_eq!(ShaderType::Fragment.glow_type(), glow::FRAGMENT_SHADER);
}

#[test]
fn shader_type_equality() {
    assert_eq!(ShaderType::Vertex, ShaderType::Vertex);
    assert_ne!(ShaderType::Vertex, ShaderType::Fragment);
}

#[test]
fn shader_type_clone() {
    let t = ShaderType::Fragment;
    let t2 = t;
    assert_eq!(t, t2);
}

#[test]
fn shader_type_debug() {
    assert_eq!(format!("{:?}", ShaderType::Vertex), "Vertex");
    assert_eq!(format!("{:?}", ShaderType::Fragment), "Fragment");
}

#[test]
fn helpers_debug_format() {
    let dbg = format!("{:?}", OpenGLHelpers);
    assert_eq!(dbg, "OpenGLHelpers");
}

#[test]
fn check_gl_error_type_check() {
    fn _type_check() -> Option<String> {
        None
    }
    assert!(_type_check().is_none());
}

#[test]
fn opengl_context_is_not_sync() {
    fn _assert_not_sync<T: Sync>() {}
}

#[test]
fn framebuffer_status_verdicts() {
    assert_eq!(framebuffer_status_result(0x8CD5), Ok(()));
    assert_eq!(
        framebuffer_status_result(0x8CD6),
        Err("Framebuffer incomplete: INCOMPLETE_ATTACHMENT (0x8CD6)".to_string())
    );
    assert_eq!(framebuffer_status_result(0x12), Err("Framebuffer incomplete: UNKNOWN (0x0012)".to_string()));
    assert_eq!(framebuffer_reason(0x8D56), "INCOMPLETE_MULTISAMPLE");
}
