use butterfly_soul_web::context::{RenderFrame, Surface, WebContext};
use butterfly_soul_web::control::{Control, WebControl, WebKeyEvent};
use butterfly_soul_web::geometry::{DrawCommand, OrientedRect, Texture, Vec2, Viewport};
use butterfly_soul_web::raster::{BitmapRegistry, CanvasOp, RenderError};
use butterfly_soul_web::scalar::Scalar;
use butterfly_soul_web::transform::Transform;

fn sc(num: i128, den: i128) -> Scalar {
    Scalar { num, den }
}

fn v2(x: i128, y: i128) -> Vec2 {
    Vec2 { x: sc(x, 1), y: sc(y, 1) }
}

fn surface(names: &[&str]) -> Surface {
    let mut bitmaps = BitmapRegistry::new();
    for n in names {
        bitmaps.register(n.to_string());
    }
    Surface { width: 800, height: 600, bitmaps }
}

fn viewport() -> Viewport {
    Viewport { position: v2(0, 0), size: v2(100, 50) }
}

fn color_cmd(color: &str) -> DrawCommand {
    DrawCommand {
        rect: OrientedRect { position: v2(0, 0), size: v2(2, 2), angle: sc(0, 1) },
        texture: Texture::Color(color.to_string()),
    }
}

fn bitmap_cmd(name: &str) -> DrawCommand {
    DrawCommand {
        rect: OrientedRect { position: v2(0, 0), size: v2(2, 2), angle: sc(0, 1) },
        texture: Texture::Bitmap(name.to_string()),
    }
}

fn flags() -> WebKeyEvent {
    WebKeyEvent { alt: false, ctrl: false, meta: false, shift: false, repeat: false }
}

fn snapshot() -> WebControl {
    WebControl {
        keys: vec![("KeyA".to_string(), flags())],
        click: [None, Some(v2(5, 5))],
        mouse: v2(10, 10),
    }
}

#[test]
fn render_before_mount_reports_absence() {
    let ctx = WebContext::new();
    let frame = RenderFrame { viewport: viewport(), world: vec![], ui: vec![] };
    assert!(ctx.render(&frame).is_none());
}

#[test]
fn control_before_mount_reports_absence() {
    let ctx = WebContext::new();
    assert!(ctx.control(&snapshot()).is_none());
}

#[test]
fn render_emits_two_passes() {
    let mut ctx = WebContext::new();
    ctx.mount(surface(&[]));
    let frame = RenderFrame {
        viewport: viewport(),
        world: vec![color_cmd("red")],
        ui: vec![color_cmd("blue"), color_cmd("green")],
    };
    let ops = ctx.render(&frame).unwrap().unwrap();
    // one transform per pass plus five operations per command
    assert_eq!(ops.len(), 2 + 5 * 3);
    // world pass first: scale 600/50, origin at the surface center
    match &ops[0] {
        CanvasOp::SetTransform(t) => {
            assert_eq!(t.a, sc(600, 50));
            assert_eq!(t.d, sc(-600, 50));
        },
        other => panic!("expected a transform, got {:?}", other),
    }
    // UI pass second: scale 600, fixed unit space
    match &ops[6] {
        CanvasOp::SetTransform(t) => {
            assert_eq!(t.a, sc(600, 1));
            assert_eq!(t.e, sc(800, 2));
        },
        other => panic!("expected a transform, got {:?}", other),
    }
    assert_eq!(ops[1], CanvasOp::Save);
    assert_eq!(ops[5], CanvasOp::Restore);
}

#[test]
fn missing_bitmap_aborts_world_pass() {
    let mut ctx = WebContext::new();
    ctx.mount(surface(&["hero"]));
    let frame = RenderFrame {
        viewport: viewport(),
        world: vec![color_cmd("red"), bitmap_cmd("ghost")],
        ui: vec![color_cmd("blue")],
    };
    let r = ctx.render(&frame).unwrap();
    assert_eq!(r, Err(RenderError::MissingBitmap("ghost".to_string())));
}

#[test]
fn missing_bitmap_aborts_ui_pass() {
    let mut ctx = WebContext::new();
    ctx.mount(surface(&["hero"]));
    let frame = RenderFrame {
        viewport: viewport(),
        world: vec![bitmap_cmd("hero")],
        ui: vec![bitmap_cmd("ghost")],
    };
    let r = ctx.render(&frame).unwrap();
    assert_eq!(r, Err(RenderError::MissingBitmap("ghost".to_string())));
}

#[test]
fn registered_bitmap_renders() {
    let mut ctx = WebContext::new();
    ctx.mount(surface(&["hero"]));
    let frame = RenderFrame { viewport: viewport(), world: vec![bitmap_cmd("hero")], ui: vec![] };
    let ops = ctx.render(&frame).unwrap().unwrap();
    assert_eq!(ops.len(), 2 + 5);
}

#[test]
fn control_round_trip() {
    let mut ctx = WebContext::new();
    ctx.mount(surface(&[]));
    let state: Control = ctx.control(&snapshot()).unwrap();
    assert_eq!(state.keys.len(), 1);
    let e = &state.keys[0];
    assert_eq!(e.code, "KeyA");
    assert!(!e.alt && !e.ctrl && !e.meta && !e.shift && !e.repeat);
    assert_eq!(state.click, [None, Some(v2(5, 5))]);
    assert_eq!(state.mouse, v2(10, 10));
}

#[test]
fn control_preserves_key_order() {
    let mut ctx = WebContext::new();
    ctx.mount(surface(&[]));
    let raw = WebControl {
        keys: vec![
            ("KeyB".to_string(), flags()),
            ("KeyA".to_string(), WebKeyEvent { shift: true, ..flags() }),
            ("Space".to_string(), flags()),
        ],
        click: [None, None],
        mouse: v2(0, 0),
    };
    let state = ctx.control(&raw).unwrap();
    let codes: Vec<&str> = state.keys.iter().map(|e| e.code.as_str()).collect();
    assert_eq!(codes, vec!["KeyB", "KeyA", "Space"]);
    assert!(state.keys[1].shift);
    assert!(!state.keys[0].shift);
}

#[test]
fn full_frame_trace_exact() {
    let mut ctx = WebContext::new();
    ctx.mount(surface(&[]));
    let frame = RenderFrame { viewport: viewport(), world: vec![color_cmd("red")], ui: vec![] };
    let ops = ctx.render(&frame).unwrap().unwrap();
    let t_world = Transform {
        a: sc(600, 50),
        b: sc(0, 1),
        c: sc(0, 1),
        d: sc(-600, 50),
        e: sc(40000, 100),
        f: sc(30000, 100),
    };
    let t_ui = Transform {
        a: sc(600, 1),
        b: sc(0, 1),
        c: sc(0, 1),
        d: sc(-600, 1),
        e: sc(800, 2),
        f: sc(600, 2),
    };
    let expected = vec![
        CanvasOp::SetTransform(t_world),
        CanvasOp::Save,
        CanvasOp::Translate(v2(0, 0)),
        CanvasOp::Rotate(sc(0, 1)),
        CanvasOp::FillRect {
            color: "red".to_string(),
            x: sc(-2, 2),
            y: sc(-2, 2),
            width: sc(2, 1),
            height: sc(2, 1),
        },
        CanvasOp::Restore,
        CanvasOp::SetTransform(t_ui),
    ];
    assert_eq!(ops, expected);
}

#[test]
fn repeated_mount_leaves_behavior_unchanged() {
    let mut once = WebContext::new();
    once.mount(surface(&["hero"]));
    let mut twice = WebContext::new();
    twice.mount(surface(&["hero"]));
    twice.mount(surface(&["hero"]));
    let frame = RenderFrame {
        viewport: viewport(),
        world: vec![bitmap_cmd("hero"), color_cmd("red")],
        ui: vec![color_cmd("blue")],
    };
    assert_eq!(once.render(&frame), twice.render(&frame));
    assert_eq!(once.control(&snapshot()), twice.control(&snapshot()));
}
