//! Replays recorded commands into both real rendering engines and checks
//! the pixels the boundary contract pins down.

use draw_bridge::color::{pack, Rgba};
use draw_bridge::geom::{fx_from_px, point_from_px, Fx};
use draw_bridge::registry::Registry;
use draw_bridge::surface::{DrawCmd, FillRule, LineCap, LineJoin, StrokeStyle};
use draw_bridge::path::Segment;
use draw_bridge::table::Handle;

fn opaque(r: u8, g: u8, b: u8) -> Rgba {
    Rgba { r, g, b, a: 255 }
}

fn fx_f32(v: Fx) -> f32 {
    v.raw as f32 / 256.0
}

fn raqote_source(c: Rgba) -> raqote::Source<'static> {
    raqote::Source::Solid(raqote::SolidSource::from_unpremultiplied_argb(c.a, c.r, c.g, c.b))
}

fn raqote_options() -> raqote::DrawOptions {
    raqote::DrawOptions {
        blend_mode: raqote::BlendMode::SrcOver,
        alpha: 1.0,
        antialias: raqote::AntialiasMode::Gray,
    }
}

fn raqote_path(segs: &[Segment]) -> raqote::Path {
    let mut pb = raqote::PathBuilder::new();
    for seg in segs {
        match *seg {
            Segment::MoveTo(p) => pb.move_to(fx_f32(p.x), fx_f32(p.y)),
            Segment::LineTo(p) => pb.line_to(fx_f32(p.x), fx_f32(p.y)),
            Segment::QuadTo(c, p) => pb.quad_to(fx_f32(c.x), fx_f32(c.y), fx_f32(p.x), fx_f32(p.y)),
            Segment::CubicTo(c1, c2, p) => pb.cubic_to(
                fx_f32(c1.x),
                fx_f32(c1.y),
                fx_f32(c2.x),
                fx_f32(c2.y),
                fx_f32(p.x),
                fx_f32(p.y),
            ),
            Segment::Close => pb.close(),
            Segment::RectTo(o, sz) => pb.rect(fx_f32(o.x), fx_f32(o.y), fx_f32(sz.x), fx_f32(sz.y)),
        }
    }
    pb.finish()
}

/// Replays the surface's pending commands into a raqote target and reads
/// the packed premultiplied-ARGB pixels back.
fn render_raqote(reg: &mut Registry, s: Handle) -> Vec<u32> {
    let w = reg.surface_width(s);
    let h = reg.surface_height(s);
    let mut dt = raqote::DrawTarget::new(w, h);
    let (start, end) = reg.take_pending(s).unwrap();
    for i in start..end {
        let cmd = reg.surface_cmd(s, i).unwrap();
        match cmd {
            DrawCmd::Clear(c) => {
                dt.clear(raqote::SolidSource::from_unpremultiplied_argb(c.a, c.r, c.g, c.b));
            },
            DrawCmd::FillRect { x, y, w: rw, h: rh, color } => {
                let mut pb = raqote::PathBuilder::new();
                pb.rect(fx_f32(*x), fx_f32(*y), fx_f32(*rw), fx_f32(*rh));
                dt.fill(&pb.finish(), &raqote_source(*color), &raqote_options());
            },
            DrawCmd::FillPath { segs, color, rule: _ } => {
                // The raqote adapter does not apply the fill rule: NonZero
                // always, as the capability query reports.
                dt.fill(&raqote_path(segs), &raqote_source(*color), &raqote_options());
            },
            DrawCmd::StrokePath { segs, color, style } => {
                let cap = match style.cap {
                    LineCap::Butt => raqote::LineCap::Butt,
                    LineCap::Round => raqote::LineCap::Round,
                    LineCap::Square => raqote::LineCap::Square,
                };
                let join = match style.join {
                    LineJoin::Miter => raqote::LineJoin::Miter,
                    LineJoin::Round => raqote::LineJoin::Round,
                    LineJoin::Bevel => raqote::LineJoin::Bevel,
                };
                let rstyle = raqote::StrokeStyle {
                    width: fx_f32(style.width),
                    cap,
                    join,
                    miter_limit: 4.0,
                    dash_array: vec![],
                    dash_offset: 0.0,
                };
                dt.stroke(&raqote_path(segs), &raqote_source(*color), &rstyle, &raqote_options());
            },
        }
    }
    dt.get_data().to_vec()
}

fn vello_path(segs: &[Segment]) -> vello_cpu::kurbo::BezPath {
    let mut bp = vello_cpu::kurbo::BezPath::new();
    for seg in segs {
        match *seg {
            Segment::MoveTo(p) => bp.move_to((fx_f32(p.x) as f64, fx_f32(p.y) as f64)),
            Segment::LineTo(p) => bp.line_to((fx_f32(p.x) as f64, fx_f32(p.y) as f64)),
            Segment::QuadTo(c, p) => bp.quad_to(
                (fx_f32(c.x) as f64, fx_f32(c.y) as f64),
                (fx_f32(p.x) as f64, fx_f32(p.y) as f64),
            ),
            Segment::CubicTo(c1, c2, p) => bp.curve_to(
                (fx_f32(c1.x) as f64, fx_f32(c1.y) as f64),
                (fx_f32(c2.x) as f64, fx_f32(c2.y) as f64),
                (fx_f32(p.x) as f64, fx_f32(p.y) as f64),
            ),
            Segment::Close => bp.close_path(),
            Segment::RectTo(o, sz) => {
                let x0 = fx_f32(o.x) as f64;
                let y0 = fx_f32(o.y) as f64;
                let x1 = x0 + fx_f32(sz.x) as f64;
                let y1 = y0 + fx_f32(sz.y) as f64;
                bp.move_to((x0, y0));
                bp.line_to((x1, y0));
                bp.line_to((x1, y1));
                bp.line_to((x0, y1));
                bp.close_path();
            },
        }
    }
    bp
}

/// Replays the surface's pending commands into a vello-cpu context and
/// reads the pixels back, normalized to the boundary's packed
/// premultiplied-ARGB words.
fn render_vello(reg: &mut Registry, s: Handle) -> Vec<u32> {
    let w = reg.surface_width(s) as u16;
    let h = reg.surface_height(s) as u16;
    let mut ctx = vello_cpu::RenderContext::new(w, h);
    let (start, end) = reg.take_pending(s).unwrap();
    for i in start..end {
        let cmd = reg.surface_cmd(s, i).unwrap();
        match cmd {
            DrawCmd::Clear(c) => {
                // A clear is a full overwrite: drop everything recorded so
                // far, then fill the whole surface.
                ctx.reset();
                ctx.set_paint(vello_cpu::peniko::Color::from_rgba8(c.r, c.g, c.b, c.a));
                ctx.fill_rect(&vello_cpu::kurbo::Rect::new(0.0, 0.0, w as f64, h as f64));
            },
            DrawCmd::FillRect { x, y, w: rw, h: rh, color } => {
                ctx.set_paint(vello_cpu::peniko::Color::from_rgba8(
                    color.r, color.g, color.b, color.a,
                ));
                let x0 = fx_f32(*x) as f64;
                let y0 = fx_f32(*y) as f64;
                ctx.fill_rect(&vello_cpu::kurbo::Rect::new(
                    x0,
                    y0,
                    x0 + fx_f32(*rw) as f64,
                    y0 + fx_f32(*rh) as f64,
                ));
            },
            DrawCmd::FillPath { segs, color, rule: _ } => {
                // The vello adapter does not apply the fill rule either.
                ctx.set_paint(vello_cpu::peniko::Color::from_rgba8(
                    color.r, color.g, color.b, color.a,
                ));
                ctx.fill_path(&vello_path(segs));
            },
            DrawCmd::StrokePath { segs, color, style: _ } => {
                // The vello adapter strokes with the engine's defaults, as
                // the capability query reports.
                ctx.set_paint(vello_cpu::peniko::Color::from_rgba8(
                    color.r, color.g, color.b, color.a,
                ));
                ctx.stroke_path(&vello_path(segs));
            },
        }
    }
    let mut pixmap = vello_cpu::Pixmap::new(w, h);
    ctx.render_to_pixmap(&mut pixmap);
    let bytes = pixmap.data_as_u8_slice();
    let mut out = Vec::with_capacity(w as usize * h as usize);
    for px in bytes.chunks_exact(4) {
        let (r, g, b, a) = (px[0] as u32, px[1] as u32, px[2] as u32, px[3] as u32);
        out.push((a << 24) | (r << 16) | (g << 8) | b);
    }
    out
}

#[test]
fn clear_sets_every_pixel_raqote() {
    let mut reg = Registry::new();
    let s = reg.surface_create(4, 3).unwrap();
    let c = opaque(10, 20, 30);
    reg.clear(s, c).unwrap();
    let pixels = render_raqote(&mut reg, s);
    assert_eq!(pixels.len(), 12);
    for p in &pixels {
        assert_eq!(*p, pack(c));
    }
}

#[test]
fn clear_sets_every_pixel_vello() {
    let mut reg = Registry::new();
    let s = reg.surface_create(4, 3).unwrap();
    let c = opaque(10, 20, 30);
    reg.clear(s, c).unwrap();
    let pixels = render_vello(&mut reg, s);
    assert_eq!(pixels.len(), 12);
    for p in &pixels {
        assert_eq!(*p, pack(c));
    }
}

#[test]
fn translucent_clear_matches_packing_raqote() {
    // A clear is a full overwrite for any alpha, and the engine stores the
    // same premultiplied rounding the packing states.
    let mut reg = Registry::new();
    let s = reg.surface_create(3, 3).unwrap();
    let c = Rgba { r: 200, g: 100, b: 50, a: 128 };
    reg.clear(s, c).unwrap();
    let pixels = render_raqote(&mut reg, s);
    for p in &pixels {
        assert_eq!(*p, pack(c));
    }
}

fn rect_scene() -> (Registry, Handle) {
    let mut reg = Registry::new();
    let s = reg.surface_create(50, 50).unwrap();
    reg.clear(s, opaque(0, 0, 255)).unwrap();
    reg.fill_rect(
        s,
        fx_from_px(10),
        fx_from_px(10),
        fx_from_px(20),
        fx_from_px(20),
        opaque(255, 0, 0),
    )
    .unwrap();
    (reg, s)
}

fn check_rect_pixels(pixels: &[u32]) {
    let red = pack(opaque(255, 0, 0));
    let blue = pack(opaque(0, 0, 255));
    assert_eq!(pixels.len(), 2500);
    for y in 0..50usize {
        for x in 0..50usize {
            let want = if (10..30).contains(&x) && (10..30).contains(&y) { red } else { blue };
            assert_eq!(pixels[y * 50 + x], want, "pixel ({}, {})", x, y);
        }
    }
}

#[test]
fn fill_rect_region_raqote() {
    let (mut reg, s) = rect_scene();
    check_rect_pixels(&render_raqote(&mut reg, s));
}

#[test]
fn fill_rect_region_vello() {
    let (mut reg, s) = rect_scene();
    check_rect_pixels(&render_vello(&mut reg, s));
}

#[test]
fn fill_rect_identical_on_both_backends() {
    let (mut reg1, s1) = rect_scene();
    let (mut reg2, s2) = rect_scene();
    assert_eq!(render_raqote(&mut reg1, s1), render_vello(&mut reg2, s2));
}

fn square_path_scene() -> (Registry, Handle) {
    let mut reg = Registry::new();
    let s = reg.surface_create(12, 12).unwrap();
    reg.clear(s, opaque(0, 0, 0)).unwrap();
    let p = reg.path_create();
    reg.move_to(p, point_from_px(0, 0)).unwrap();
    reg.line_to(p, point_from_px(10, 0)).unwrap();
    reg.line_to(p, point_from_px(10, 10)).unwrap();
    reg.line_to(p, point_from_px(0, 10)).unwrap();
    reg.close(p).unwrap();
    reg.fill_path(s, p, opaque(255, 255, 255), FillRule::NonZero).unwrap();
    reg.path_destroy(p).unwrap();
    (reg, s)
}

fn square_rect_scene() -> (Registry, Handle) {
    let mut reg = Registry::new();
    let s = reg.surface_create(12, 12).unwrap();
    reg.clear(s, opaque(0, 0, 0)).unwrap();
    reg.fill_rect(
        s,
        fx_from_px(0),
        fx_from_px(0),
        fx_from_px(10),
        fx_from_px(10),
        opaque(255, 255, 255),
    )
    .unwrap();
    (reg, s)
}

#[test]
fn path_square_equals_fill_rect_raqote() {
    let (mut reg1, s1) = square_path_scene();
    let (mut reg2, s2) = square_rect_scene();
    assert_eq!(render_raqote(&mut reg1, s1), render_raqote(&mut reg2, s2));
}

#[test]
fn path_square_equals_fill_rect_vello() {
    let (mut reg1, s1) = square_path_scene();
    let (mut reg2, s2) = square_rect_scene();
    assert_eq!(render_vello(&mut reg1, s1), render_vello(&mut reg2, s2));
}

#[test]
fn rect_shortcut_equals_explicit_path_raqote() {
    let mut reg = Registry::new();
    let s = reg.surface_create(12, 12).unwrap();
    reg.clear(s, opaque(0, 0, 0)).unwrap();
    let p = reg.path_create();
    reg.rect(p, point_from_px(2, 2), point_from_px(6, 6)).unwrap();
    reg.fill_path(s, p, opaque(0, 255, 0), FillRule::NonZero).unwrap();
    reg.path_destroy(p).unwrap();

    let mut reg2 = Registry::new();
    let s2 = reg2.surface_create(12, 12).unwrap();
    reg2.clear(s2, opaque(0, 0, 0)).unwrap();
    let p2 = reg2.path_create();
    reg2.move_to(p2, point_from_px(2, 2)).unwrap();
    reg2.line_to(p2, point_from_px(8, 2)).unwrap();
    reg2.line_to(p2, point_from_px(8, 8)).unwrap();
    reg2.line_to(p2, point_from_px(2, 8)).unwrap();
    reg2.close(p2).unwrap();
    reg2.fill_path(s2, p2, opaque(0, 255, 0), FillRule::NonZero).unwrap();
    reg2.path_destroy(p2).unwrap();

    assert_eq!(render_raqote(&mut reg, s), render_raqote(&mut reg2, s2));
}

#[test]
fn engines_match_the_verified_model() {
    // Both engines must agree with the proved pixel model wherever the
    // model pins a value.
    let (mut reg1, s1) = rect_scene();
    let raqote_pixels = render_raqote(&mut reg1, s1);
    let (mut reg2, s2) = rect_scene();
    let vello_pixels = render_vello(&mut reg2, s2);
    for y in 0..50i32 {
        for x in 0..50i32 {
            let want = draw_bridge::model::model_pixel(&reg1, s1, x, y).unwrap();
            assert_eq!(raqote_pixels[(y * 50 + x) as usize], want, "raqote ({}, {})", x, y);
            assert_eq!(vello_pixels[(y * 50 + x) as usize], want, "vello ({}, {})", x, y);
        }
    }
}

#[test]
fn model_pixel_bounds_and_gaps() {
    let (reg, s) = rect_scene();
    // Out of bounds or a null handle yields nothing.
    assert_eq!(draw_bridge::model::model_pixel(&reg, s, -1, 0), None);
    assert_eq!(draw_bridge::model::model_pixel(&reg, s, 50, 0), None);
    assert_eq!(draw_bridge::model::model_pixel(&reg, s, 0, 50), None);
    assert_eq!(draw_bridge::model::model_pixel(&reg, Handle::null(), 0, 0), None);
    // Inside and outside the rectangle.
    assert_eq!(
        draw_bridge::model::model_pixel(&reg, s, 10, 10),
        Some(pack(opaque(255, 0, 0)))
    );
    assert_eq!(
        draw_bridge::model::model_pixel(&reg, s, 30, 10),
        Some(pack(opaque(0, 0, 255)))
    );

    // A stroke is not pinned by the model: the whole log stops being
    // modelable.
    let mut reg2 = Registry::new();
    let s2 = reg2.surface_create(8, 8).unwrap();
    reg2.clear(s2, opaque(0, 0, 0)).unwrap();
    let p = reg2.path_create();
    reg2.move_to(p, point_from_px(0, 4)).unwrap();
    reg2.line_to(p, point_from_px(8, 4)).unwrap();
    let style = StrokeStyle { width: fx_from_px(1), cap: LineCap::Butt, join: LineJoin::Miter };
    reg2.stroke_path(s2, p, opaque(1, 2, 3), style).unwrap();
    assert_eq!(draw_bridge::model::model_pixel(&reg2, s2, 0, 0), None);

    // A translucent or unaligned rectangle fill is not pinned either.
    let mut reg3 = Registry::new();
    let s3 = reg3.surface_create(8, 8).unwrap();
    reg3.fill_rect(
        s3,
        fx_from_px(0),
        fx_from_px(0),
        fx_from_px(4),
        fx_from_px(4),
        Rgba { r: 9, g: 9, b: 9, a: 128 },
    )
    .unwrap();
    assert_eq!(draw_bridge::model::model_pixel(&reg3, s3, 0, 0), None);
    let mut reg4 = Registry::new();
    let s4 = reg4.surface_create(8, 8).unwrap();
    reg4.fill_rect(s4, Fx { raw: 100 }, fx_from_px(0), fx_from_px(4), fx_from_px(4), opaque(9, 9, 9))
        .unwrap();
    assert_eq!(draw_bridge::model::model_pixel(&reg4, s4, 0, 0), None);
    // An empty log is pinned: the engines' initial transparent black.
    let mut reg5 = Registry::new();
    let s5 = reg5.surface_create(8, 8).unwrap();
    assert_eq!(draw_bridge::model::model_pixel(&reg5, s5, 0, 0), Some(0));
}

#[test]
fn butt_stroke_geometry_raqote() {
    let mut reg = Registry::new();
    let s = reg.surface_create(30, 20).unwrap();
    let white = opaque(255, 255, 255);
    let red = opaque(255, 0, 0);
    reg.clear(s, white).unwrap();
    let p = reg.path_create();
    reg.move_to(p, point_from_px(0, 10)).unwrap();
    reg.line_to(p, point_from_px(20, 10)).unwrap();
    let style = StrokeStyle { width: fx_from_px(4), cap: LineCap::Butt, join: LineJoin::Miter };
    reg.stroke_path(s, p, red, style).unwrap();
    reg.path_destroy(p).unwrap();
    let pixels = render_raqote(&mut reg, s);
    for y in 0..20usize {
        for x in 0..30usize {
            let want = if (0..20).contains(&x) && (8..12).contains(&y) {
                pack(red)
            } else {
                pack(white)
            };
            assert_eq!(pixels[y * 30 + x], want, "pixel ({}, {})", x, y);
        }
    }
}

#[test]
fn stroke_uses_engine_default_vello() {
    let mut reg = Registry::new();
    let s = reg.surface_create(30, 20).unwrap();
    let white = opaque(255, 255, 255);
    let red = opaque(255, 0, 0);
    reg.clear(s, white).unwrap();
    let p = reg.path_create();
    reg.move_to(p, point_from_px(0, 10)).unwrap();
    reg.line_to(p, point_from_px(20, 10)).unwrap();
    // The vello adapter records the style but strokes with the engine's
    // default, as its capability query reports; assert only that the line's
    // neighborhood changed and the rest of the surface did not.
    let style = StrokeStyle { width: fx_from_px(4), cap: LineCap::Butt, join: LineJoin::Miter };
    reg.stroke_path(s, p, red, style).unwrap();
    reg.path_destroy(p).unwrap();
    let pixels = render_vello(&mut reg, s);
    let w = pack(white);
    assert!(pixels[10 * 30 + 5] != w || pixels[9 * 30 + 5] != w);
    for y in 0..20usize {
        for x in 0..30usize {
            if !(0..=21).contains(&x) || !(7..=13).contains(&y) {
                assert_eq!(pixels[y * 30 + x], w, "pixel ({}, {})", x, y);
            }
        }
    }
}
