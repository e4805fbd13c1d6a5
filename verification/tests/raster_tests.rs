use butterfly_soul_web::geometry::{DrawCommand, OrientedRect, Texture, Vec2};
use butterfly_soul_web::raster::{rasterize, BitmapRegistry, CanvasOp, RenderError};
use butterfly_soul_web::scalar::Scalar;

fn sc(num: i128, den: i128) -> Scalar {
    Scalar { num, den }
}

fn v2(x: Scalar, y: Scalar) -> Vec2 {
    Vec2 { x, y }
}

fn rect(px: i128, py: i128, w: i128, h: i128, angle: Scalar) -> OrientedRect {
    OrientedRect { position: v2(sc(px, 1), sc(py, 1)), size: v2(sc(w, 1), sc(h, 1)), angle }
}

fn color_cmd(rect: OrientedRect, color: &str) -> DrawCommand {
    DrawCommand { rect, texture: Texture::Color(color.to_string()) }
}

fn bitmap_cmd(rect: OrientedRect, name: &str) -> DrawCommand {
    DrawCommand { rect, texture: Texture::Bitmap(name.to_string()) }
}

#[test]
fn registry_lookup() {
    let mut reg = BitmapRegistry::new();
    assert!(!reg.contains(&"hero".to_string()));
    reg.register("hero".to_string());
    assert!(reg.contains(&"hero".to_string()));
    assert!(!reg.contains(&"ghost".to_string()));
}

#[test]
fn color_command_trace() {
    let reg = BitmapRegistry::new();
    let list = vec![color_cmd(rect(1, 2, 2, 4, sc(3, 4)), "red")];
    let ops = rasterize(&list, &reg).unwrap();
    let expected = vec![
        CanvasOp::Save,
        CanvasOp::Translate(v2(sc(1, 1), sc(2, 1))),
        CanvasOp::Rotate(sc(3, 4)),
        CanvasOp::FillRect {
            color: "red".to_string(),
            x: sc(-2, 2),
            y: sc(-4, 2),
            width: sc(2, 1),
            height: sc(4, 1),
        },
        CanvasOp::Restore,
    ];
    assert_eq!(ops, expected);
}

#[test]
fn bitmap_command_trace() {
    let mut reg = BitmapRegistry::new();
    reg.register("hero".to_string());
    let list = vec![bitmap_cmd(rect(0, 0, 6, 8, sc(0, 1)), "hero")];
    let ops = rasterize(&list, &reg).unwrap();
    assert_eq!(ops.len(), 5);
    assert_eq!(
        ops[3],
        CanvasOp::DrawBitmap {
            name: "hero".to_string(),
            x: sc(-6, 2),
            y: sc(-8, 2),
            width: sc(6, 1),
            height: sc(8, 1),
        }
    );
}

#[test]
fn missing_bitmap_fails_fast() {
    let reg = BitmapRegistry::new();
    let list = vec![
        color_cmd(rect(0, 0, 1, 1, sc(0, 1)), "red"),
        bitmap_cmd(rect(0, 0, 1, 1, sc(0, 1)), "ghost"),
        color_cmd(rect(9, 9, 1, 1, sc(0, 1)), "blue"),
    ];
    let r = rasterize(&list, &reg);
    assert_eq!(r, Err(RenderError::MissingBitmap("ghost".to_string())));
}

#[test]
fn degenerate_size_draws_without_error() {
    let reg = BitmapRegistry::new();
    let list = vec![color_cmd(rect(5, 5, 0, 0, sc(1, 2)), "green")];
    let ops = rasterize(&list, &reg).unwrap();
    assert_eq!(ops.len(), 5);
    assert_eq!(
        ops[3],
        CanvasOp::FillRect {
            color: "green".to_string(),
            x: sc(0, 2),
            y: sc(0, 2),
            width: sc(0, 1),
            height: sc(0, 1),
        }
    );
}

#[test]
fn draw_order_is_preserved() {
    let reg = BitmapRegistry::new();
    let a = color_cmd(rect(0, 0, 2, 2, sc(0, 1)), "red");
    let b = color_cmd(rect(1, 1, 2, 2, sc(0, 1)), "blue");
    let both = rasterize(&vec![a.clone(), b.clone()], &reg).unwrap();
    let first = rasterize(&vec![a], &reg).unwrap();
    let second = rasterize(&vec![b], &reg).unwrap();
    let mut concatenated = first.clone();
    concatenated.extend(second.clone());
    assert_eq!(both, concatenated);
    // the overlapping command B is replayed strictly after A
    assert_eq!(&both[5..], &second[..]);
}
