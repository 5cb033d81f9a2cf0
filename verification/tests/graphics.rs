use darkiron::console::ConsoleColor;
use darkiron::graphics::gl::{self, error_report, has_error, Buffer, BufferSource, GlCall, PixelSource};
use darkiron::graphics::gx::OpenGlWindow;
use darkiron::graphics::primitive::{Primitive, COLOR_OFFSET, UV_OFFSET};
use darkiron::graphics::texture::{DecodedImage, Texture};
use darkiron::graphics::{init, FramePlan, OverlayState};
use darkiron::hooks::{Detour, MemoryWrite};
use darkiron::math::RectI;

fn png_bytes(width: u32, height: u32) -> Vec<u8> {
    let img = image::DynamicImage::ImageRgba8(image::RgbaImage::new(width, height));
    let mut out = std::io::Cursor::new(Vec::new());
    img.write_to(&mut out, image::ImageOutputFormat::Png).unwrap();
    out.into_inner()
}

#[test]
fn texture_binds_as_2d() {
    let t = Texture { gl_id: 7 };
    assert_eq!(t.bind(), GlCall::BindTexture { target: 0xDE1, texture: 7 });
    assert_eq!(Texture::default().gl_id, 0);
}

#[test]
fn texture_decodes_png() {
    let img = Texture::decode(&png_bytes(3, 2)).unwrap();
    assert_eq!(img.width, 3);
    assert_eq!(img.height, 2);
    assert_eq!(img.rgba.len(), 24);
}

#[test]
fn texture_decode_rejects_garbage() {
    assert!(Texture::decode(b"not an image").is_err());
    assert!(Texture::decode(&[]).is_err());
}

#[test]
fn texture_file_format_comes_from_extension() {
    let bytes = png_bytes(4, 4);
    let img = Texture::decode_file("logo.png", &bytes).unwrap();
    assert_eq!((img.width, img.height, img.rgba.len()), (4, 4, 64));
    assert!(Texture::decode_file("Interface\\LOGO.PNG", &bytes).is_ok());
    // the same bytes under a name without a known image extension are refused
    assert!(Texture::decode_file("logo", &bytes).is_err());
    assert!(Texture::decode_file("logo.txt", &bytes).is_err());
    assert!(Texture::decode_file("logo.png", b"not an image").is_err());
    // decoding from memory guesses the format from the contents instead
    assert!(Texture::decode(&bytes).is_ok());
}

#[test]
fn texture_upload_calls() {
    let img = DecodedImage { width: 2, height: 1, rgba: vec![0; 8] };
    let (t, calls) = Texture::from_image(5, &img);
    assert_eq!(t.gl_id, 5);
    assert_eq!(
        calls,
        vec![
            GlCall::BindTexture { target: gl::TEXTURE_2D, texture: 5 },
            GlCall::TexParameter { target: gl::TEXTURE_2D, param: 0x2801, value: 0x2600 },
            GlCall::TexParameter { target: gl::TEXTURE_2D, param: 0x2800, value: 0x2601 },
            GlCall::TexImage2D {
                target: gl::TEXTURE_2D,
                level: 0,
                internal_format: 0x8058,
                width: 2,
                height: 1,
                border: 0,
                format: 0x1908,
                ty: 0x1401,
                pixels: PixelSource::ImageRgba8,
            },
        ]
    );
}

#[test]
fn primitive_draw_calls() {
    let p = Primitive::new(Primitive::rect_indices(), Texture { gl_id: 3 });
    let mut p = p;
    p.vbo = 10;
    p.ibo = 11;
    let calls = p.draw();
    assert_eq!(calls.len(), 13);
    assert_eq!(calls[0], GlCall::BindTexture { target: gl::TEXTURE_2D, texture: 3 });
    assert_eq!(calls[1], GlCall::EnableClientState(gl::VERTEX_ARRAY));
    assert_eq!(calls[4], GlCall::VertexPointer { offset: 0 });
    assert_eq!(calls[5], GlCall::TexCoordPointer { offset: 12 });
    assert_eq!(calls[6], GlCall::ColorPointer { size: 4, ty: gl::UNSIGNED_BYTE, offset: 20 });
    assert_eq!(calls[7], GlCall::BindBuffer { target: gl::ARRAY_BUFFER, buffer: 10 });
    assert_eq!(calls[8], GlCall::BindBuffer { target: gl::ELEMENT_ARRAY_BUFFER, buffer: 11 });
    assert_eq!(
        calls[9],
        GlCall::DrawElements { mode: gl::TRIANGLES, count: 6, ty: gl::UNSIGNED_INT, offset: 0 }
    );
    assert_eq!(calls[12], GlCall::DisableClientState(gl::COLOR_ARRAY));
    assert_eq!(UV_OFFSET, 12);
    assert_eq!(COLOR_OFFSET, 20);
}

#[test]
fn primitive_buffers_once() {
    let mut p = Primitive::new(Primitive::rect_indices(), Texture::default());
    assert!(p.needs_vertex_buffer());
    assert!(p.needs_index_buffer());
    let calls = p.buffer(4, 5);
    assert_eq!((p.vbo, p.ibo), (4, 5));
    assert_eq!(
        calls,
        vec![
            GlCall::BindBuffer { target: gl::ARRAY_BUFFER, buffer: 4 },
            GlCall::BufferData { target: gl::ARRAY_BUFFER, source: BufferSource::Vertices, usage: gl::STATIC_DRAW },
            GlCall::BindBuffer { target: gl::ELEMENT_ARRAY_BUFFER, buffer: 5 },
            GlCall::BufferData { target: gl::ELEMENT_ARRAY_BUFFER, source: BufferSource::Indices, usage: gl::STATIC_DRAW },
            GlCall::BindBuffer { target: gl::ARRAY_BUFFER, buffer: 0 },
        ]
    );
    assert!(!p.needs_vertex_buffer());
    let _ = p.buffer(8, 9);
    assert_eq!((p.vbo, p.ibo), (4, 5));
    assert_eq!(Primitive::rect_indices(), vec![0, 1, 2, 2, 3, 0]);
}

#[test]
fn buffer_uploads_to_its_target() {
    let b = Buffer::new(gl::ARRAY_BUFFER, vec![1u32, 2, 3]);
    assert_eq!(b.target, gl::ARRAY_BUFFER);
    assert_eq!(b.gl_id, 0);
    assert_eq!(b.data, vec![1, 2, 3]);
    b.bind();
    let up = b.buffer_data(vec![9u32], gl::STATIC_DRAW);
    assert_eq!(up.target, gl::ARRAY_BUFFER);
    assert_eq!(up.data, vec![9]);
    assert_eq!(up.usage, gl::STATIC_DRAW);
    let d: Buffer<u8> = Buffer::default();
    assert_eq!((d.target, d.gl_id, d.data.len()), (0, 0, 0));
}

#[test]
fn driver_errors() {
    assert!(!has_error(0));
    assert!(has_error(0x0500));
    let report = error_report("invalid enumerant");
    assert_eq!(report.text, "[ui] glTexImage2D: invalid enumerant");
    assert_eq!(report.color, ConsoleColor::Error);
}

#[test]
fn overlay_initializes_once_and_toggles() {
    let mut s = OverlayState::new();
    assert_eq!(s.frame(), FramePlan { initialize: true, draw: true });
    assert_eq!(s.frame(), FramePlan { initialize: false, draw: true });
    s.toggle();
    assert_eq!(s.frame(), FramePlan { initialize: false, draw: false });
    s.toggle();
    assert!(s.enabled);
    let mut off = OverlayState::new();
    off.toggle();
    assert_eq!(off.frame(), FramePlan { initialize: true, draw: false });
    assert!(off.initialized);
}

#[test]
fn graphics_init_plan() {
    let plan = init();
    assert_eq!(
        plan.writes,
        vec![
            MemoryWrite::Bytes { address: 0x0080E138, bytes: b"OpenGL\0".to_vec() },
            MemoryWrite::Bytes { address: 0x00864F7C, bytes: b"OpenGL\0".to_vec() },
        ]
    );
    assert_eq!(plan.detours, vec![Detour::RenderFrame, Detour::RecreateWindow, Detour::WindowTitle]);
}

#[test]
fn plain_records() {
    let r = RectI { x1: 0, y1: 0, x2: 800, y2: 600 };
    assert_eq!(r.x2, 800);
    let w = OpenGlWindow {
        unk_00: 0, unk_01: 0, unk_02: 0, unk_03: 0, width: 1024, height: 768,
        unk_06: 0, unk_07: 0, unk_08: 0, unk_09: 0, unk_10: 0, unk_11: 0, x: 10, y: 20,
    };
    assert_eq!((w.width, w.height, w.x, w.y), (1024, 768, 10, 20));
}
