//! The namespace of the OpenGL helper operations, and the verdict on a
//! framebuffer's completeness status.
use vstd::prelude::*;
use crate::text::{push_hex_padded, push_str, spec_hex_padded};

verus! {

/// The OpenGL helper operations, which need a live context, belong to the
/// host; this type names them.
#[derive(Debug)]
pub struct OpenGLHelpers;

/// `glow::FRAMEBUFFER_COMPLETE`, which the `glow` source defines as `0x8CD5`.
#[verifier::external_body]
fn gl_framebuffer_complete() -> (v: u32)
    ensures v == 0x8CD5,
{
    glow::FRAMEBUFFER_COMPLETE
}

/// `glow::FRAMEBUFFER_INCOMPLETE_ATTACHMENT`, which the `glow` source
/// defines as `0x8CD6`.
#[verifier::external_body]
fn gl_framebuffer_incomplete_attachment() -> (v: u32)
    ensures v == 0x8CD6,
{
    glow::FRAMEBUFFER_INCOMPLETE_ATTACHMENT
}

/// `glow::FRAMEBUFFER_INCOMPLETE_MISSING_ATTACHMENT`, which the `glow`
/// source defines as `0x8CD7`.
#[verifier::external_body]
fn gl_framebuffer_incomplete_missing_attachment() -> (v: u32)
    ensures v == 0x8CD7,
{
    glow::FRAMEBUFFER_INCOMPLETE_MISSING_ATTACHMENT
}

/// `glow::FRAMEBUFFER_INCOMPLETE_DRAW_BUFFER`, which the `glow` source
/// defines as `0x8CDB`.
#[verifier::external_body]
fn gl_framebuffer_incomplete_draw_buffer() -> (v: u32)
    ensures v == 0x8CDB,
{
    glow::FRAMEBUFFER_INCOMPLETE_DRAW_BUFFER
}

/// `glow::FRAMEBUFFER_INCOMPLETE_READ_BUFFER`, which the `glow` source
/// defines as `0x8CDC`.
#[verifier::external_body]
fn gl_framebuffer_incomplete_read_buffer() -> (v: u32)
    ensures v == 0x8CDC,
{
    glow::FRAMEBUFFER_INCOMPLETE_READ_BUFFER
}

/// `glow::FRAMEBUFFER_UNSUPPORTED`, which the `glow` source defines as
/// `0x8CDD`.
#[verifier::external_body]
fn gl_framebuffer_unsupported() -> (v: u32)
    ensures v == 0x8CDD,
{
    glow::FRAMEBUFFER_UNSUPPORTED
}

/// `glow::FRAMEBUFFER_INCOMPLETE_MULTISAMPLE`, which the `glow` source
/// defines as `0x8D56`.
#[verifier::external_body]
fn gl_framebuffer_incomplete_multisample() -> (v: u32)
    ensures v == 0x8D56,
{
    glow::FRAMEBUFFER_INCOMPLETE_MULTISAMPLE
}

/// The name of an incompleteness status.
pub open spec fn spec_framebuffer_reason(status: u32) -> Seq<char> {
    if status == 0x8CD6 {
        "INCOMPLETE_ATTACHMENT"@
    } else if status == 0x8CD7 {
        "INCOMPLETE_MISSING_ATTACHMENT"@
    } else if status == 0x8CDB {
        "INCOMPLETE_DRAW_BUFFER"@
    } else if status == 0x8CDC {
        "INCOMPLETE_READ_BUFFER"@
    } else if status == 0x8CDD {
        "UNSUPPORTED"@
    } else if status == 0x8D56 {
        "INCOMPLETE_MULTISAMPLE"@
    } else {
        "UNKNOWN"@
    }
}

/// The name of an incompleteness status (see [`spec_framebuffer_reason`]).
pub fn framebuffer_reason(status: u32) -> (r: &'static str)
    ensures r@ == spec_framebuffer_reason(status),
{
    if status == gl_framebuffer_incomplete_attachment() {
        "INCOMPLETE_ATTACHMENT"
    } else if status == gl_framebuffer_incomplete_missing_attachment() {
        "INCOMPLETE_MISSING_ATTACHMENT"
    } else if status == gl_framebuffer_incomplete_draw_buffer() {
        "INCOMPLETE_DRAW_BUFFER"
    } else if status == gl_framebuffer_incomplete_read_buffer() {
        "INCOMPLETE_READ_BUFFER"
    } else if status == gl_framebuffer_unsupported() {
        "UNSUPPORTED"
    } else if status == gl_framebuffer_incomplete_multisample() {
        "INCOMPLETE_MULTISAMPLE"
    } else {
        "UNKNOWN"
    }
}

/// The verdict on a framebuffer status: `Ok` when complete, otherwise
/// `Framebuffer incomplete: <reason> (0x<status>)` with the status in
/// upper-case hexadecimal of at least four digits.
pub fn framebuffer_status_result(status: u32) -> (r: Result<(), String>)
    ensures
        status == 0x8CD5 ==> r is Ok,
        status != 0x8CD5 ==> (r matches Err(m) && m@ == "Framebuffer incomplete: "@
            + spec_framebuffer_reason(status) + " (0x"@ + spec_hex_padded(status, 4) + ")"@),
{
    if status == gl_framebuffer_complete() {
        return Ok(());
    }
    let mut m = String::new();
    push_str(&mut m, "Framebuffer incomplete: ");
    push_str(&mut m, framebuffer_reason(status));
    push_str(&mut m, " (0x");
    push_hex_padded(&mut m, status, 4);
    push_str(&mut m, ")");
    Err(m)
}

} // verus!
