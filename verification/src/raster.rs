use vstd::prelude::*;
use crate::geometry::{DrawCommand, Texture, Vec2};
use crate::scalar::{rat_eq, rat_half, rat_neg, Scalar};
use crate::transform::Transform;

verus! {

/// The name side of the bitmap registry.  The registry maps string
/// identifiers to decoded, display-ready images; the core consults only the
/// set of registered names, while the embedding shell owns the image
/// resources, keyed by the same names.
pub struct BitmapRegistry {
    pub names: Vec<String>,
}

impl BitmapRegistry {
    /// Whether an identifier is registered.
    pub open spec fn has_name(self, name: Seq<char>) -> bool {
        exists|i: int| 0 <= i < self.names@.len() && self.names@[i]@ == name
    }

    /// An empty registry.
    pub fn new() -> (r: BitmapRegistry)
        ensures
            r.names@.len() == 0,
            forall|n: Seq<char>| !r.has_name(n),
    {
        BitmapRegistry { names: Vec::new() }
    }

    /// Registers one more identifier; already registered names stay
    /// registered.
    pub fn register(&mut self, name: String)
        ensures
            final(self).names@ == old(self).names@.push(name),
            final(self).has_name(name@),
            forall|n: Seq<char>| old(self).has_name(n) ==> final(self).has_name(n),
    {
        self.names.push(name);
        proof {
            assert(self.names@[old(self).names@.len() as int] == name);
            assert forall|n: Seq<char>| old(self).has_name(n) implies self.has_name(n) by {
                let i = choose|i: int|
                    0 <= i < old(self).names@.len() && old(self).names@[i]@ == n;
                assert(self.names@[i]@ == n);
            }
        }
    }

    /// Whether `name` is registered, by linear search.
    pub fn contains(&self, name: &String) -> (r: bool)
        ensures
            r == self.has_name(name@),
    {
        let mut i: usize = 0;
        while i < self.names.len()
            invariant
                0 <= i <= self.names@.len(),
                forall|j: int| 0 <= j < i ==> self.names@[j]@ != name@,
            decreases self.names@.len() - i,
        {
            if self.names[i].eq(name) {
                proof {
                    assert(self.names@[i as int]@ == name@);
                }
                return true;
            }
            i += 1;
        }
        false
    }
}

/// Why a render pass failed: a bitmap-textured command named an identifier
/// that the registry does not hold.  This is fatal to the pass — a missing
/// bitmap signals an asset pipeline fault that must surface immediately.
#[derive(Clone, Debug, PartialEq, Eq)]
pub enum RenderError {
    MissingBitmap(String),
}

/// One imperative operation against the drawing surface.  A render call
/// produces an ordered sequence of these; the embedding shell replays them on
/// the real surface in order.
#[derive(Clone, Debug, PartialEq, Eq)]
pub enum CanvasOp {
    /// Replace the surface's current transform.
    SetTransform(Transform),
    /// Push the drawing state.
    Save,
    /// Translate the local frame.
    Translate(Vec2),
    /// Rotate the local frame, by an angle in radians counter-clockwise.
    Rotate(Scalar),
    /// Fill an axis-aligned rectangle of the local frame with a solid color.
    FillRect { color: String, x: Scalar, y: Scalar, width: Scalar, height: Scalar },
    /// Stretch a registered bitmap over an axis-aligned rectangle of the
    /// local frame.
    DrawBitmap { name: String, x: Scalar, y: Scalar, width: Scalar, height: Scalar },
    /// Pop the drawing state.
    Restore,
}

/// Minus half of `s`, exactly: the local coordinate of a painted corner.
pub open spec fn spec_neg_half(s: Scalar) -> Scalar {
    Scalar { num: (-s.num) as i128, den: (2 * s.den) as i128 }
}

/// Minus half of `s`, executably.
fn neg_half(s: Scalar) -> (r: Scalar)
    requires
        s.bounded(),
    ensures
        r == spec_neg_half(s),
        r.wf(),
{
    s.negated().halved()
}

/// The paint step of one command: a color fills the local bounds; a bitmap is
/// stretched over them.  The bounds span `[-w/2, -h/2]` to `[w/2, h/2]` in
/// the translated and rotated local frame.
pub open spec fn spec_paint_op(c: DrawCommand) -> CanvasOp {
    match c.texture {
        Texture::Color(col) => CanvasOp::FillRect {
            color: col,
            x: spec_neg_half(c.rect.size.x),
            y: spec_neg_half(c.rect.size.y),
            width: c.rect.size.x,
            height: c.rect.size.y,
        },
        Texture::Bitmap(nm) => CanvasOp::DrawBitmap {
            name: nm,
            x: spec_neg_half(c.rect.size.x),
            y: spec_neg_half(c.rect.size.y),
            width: c.rect.size.x,
            height: c.rect.size.y,
        },
    }
}

/// The five operations that replay one draw command: save the drawing state,
/// translate to the rectangle's center, rotate about it, paint the locally
/// centered bounds, restore.
pub open spec fn cmd_trace(c: DrawCommand) -> Seq<CanvasOp> {
    seq![
        CanvasOp::Save,
        CanvasOp::Translate(c.rect.position),
        CanvasOp::Rotate(c.rect.angle),
        spec_paint_op(c),
        CanvasOp::Restore,
    ]
}

/// The operations that replay a whole draw list, command by command in list
/// order.
pub open spec fn list_trace(l: Seq<DrawCommand>) -> Seq<CanvasOp>
    decreases l.len(),
{
    if l.len() == 0 {
        Seq::empty()
    } else {
        list_trace(l.drop_last()) + cmd_trace(l.last())
    }
}

/// Whether one command can be replayed: a color always, a bitmap only if its
/// identifier is registered.
pub open spec fn cmd_ok(c: DrawCommand, reg: BitmapRegistry) -> bool {
    match c.texture {
        Texture::Color(_) => true,
        Texture::Bitmap(nm) => reg.has_name(nm@),
    }
}

/// Whether every command of a list can be replayed.
pub open spec fn list_ok(l: Seq<DrawCommand>, reg: BitmapRegistry) -> bool {
    forall|i: int| 0 <= i < l.len() ==> cmd_ok(l[i], reg)
}

/// `e` is the error of a pass over `l` that stopped at position `i`: every
/// earlier command can be replayed, the command at `i` names an unregistered
/// bitmap, and `e` carries that name.
pub open spec fn fails_at(l: Seq<DrawCommand>, reg: BitmapRegistry, i: int, e: RenderError) -> bool {
    &&& 0 <= i < l.len()
    &&& !cmd_ok(l[i], reg)
    &&& forall|j: int| 0 <= j < i ==> cmd_ok(l[j], reg)
    &&& l[i].texture matches Texture::Bitmap(nm) && e matches RenderError::MissingBitmap(me)
        && me@ == nm@
}

/// `e` is the error of a pass over `l` that stopped at its first
/// unresolvable command.
pub open spec fn first_failure(l: Seq<DrawCommand>, reg: BitmapRegistry, e: RenderError) -> bool {
    exists|i: int| fails_at(l, reg, i, e)
}

/// Replays an ordered draw list into the operation sequence that paints it:
/// each command in order contributes save, translate, rotate, paint, restore.
/// A bitmap identifier absent from the registry is fatal to the pass: the
/// replay stops at the first such command and reports which name was missing,
/// and no command is silently skipped.
pub fn rasterize(list: &Vec<DrawCommand>, reg: &BitmapRegistry) -> (r: Result<
    Vec<CanvasOp>,
    RenderError,
>)
    requires
        forall|i: int| 0 <= i < list@.len() ==> (#[trigger] list@[i]).bounded(),
    ensures
        r is Ok <==> list_ok(list@, *reg),
        r matches Ok(ops) ==> ops@ == list_trace(list@),
        r is Err ==> first_failure(list@, *reg, r->Err_0),
{
    let mut ops: Vec<CanvasOp> = Vec::new();
    let mut idx: usize = 0;
    while idx < list.len()
        invariant
            0 <= idx <= list@.len(),
            forall|i: int| 0 <= i < list@.len() ==> (#[trigger] list@[i]).bounded(),
            forall|j: int| 0 <= j < idx ==> cmd_ok(list@[j], *reg),
            ops@ == list_trace(list@.take(idx as int)),
        decreases list@.len() - idx,
    {
        let cmd = &list[idx];
        ops.push(CanvasOp::Save);
        ops.push(CanvasOp::Translate(cmd.rect.position));
        ops.push(CanvasOp::Rotate(cmd.rect.angle));
        match &cmd.texture {
            Texture::Color(col) => {
                ops.push(CanvasOp::FillRect {
                    color: col.clone(),
                    x: neg_half(cmd.rect.size.x),
                    y: neg_half(cmd.rect.size.y),
                    width: cmd.rect.size.x,
                    height: cmd.rect.size.y,
                });
            }
            Texture::Bitmap(nm) => {
                if !reg.contains(nm) {
                    let e = RenderError::MissingBitmap(nm.clone());
                    proof {
                        assert(list@[idx as int].texture matches Texture::Bitmap(n2)
                            && n2@ == nm@);
                        assert(!cmd_ok(list@[idx as int], *reg));
                        assert(fails_at(list@, *reg, idx as int, e));
                        assert(first_failure(list@, *reg, e));
                    }
                    return Err(e);
                }
                ops.push(CanvasOp::DrawBitmap {
                    name: nm.clone(),
                    x: neg_half(cmd.rect.size.x),
                    y: neg_half(cmd.rect.size.y),
                    width: cmd.rect.size.x,
                    height: cmd.rect.size.y,
                });
            }
        }
        ops.push(CanvasOp::Restore);
        proof {
            let pre = list@.take(idx as int);
            let cur = list@.take(idx as int + 1);
            assert(cur.drop_last() =~= pre);
            assert(cur.last() == list@[idx as int]);
            assert(ops@ =~= list_trace(pre) + cmd_trace(list@[idx as int]));
        }
        idx += 1;
    }
    proof {
        assert(list@.take(list@.len() as int) =~= list@);
    }
    Ok(ops)
}

/// Draw order is preserved: replaying a concatenated draw list yields exactly
/// the first list's operations followed by the second's, so a later command's
/// paint is always issued after — and thus over — an earlier, overlapping
/// one.
pub proof fn lemma_trace_append(l1: Seq<DrawCommand>, l2: Seq<DrawCommand>)
    ensures
        list_trace(l1 + l2) == list_trace(l1) + list_trace(l2),
    decreases l2.len(),
{
    if l2.len() == 0 {
        assert(l1 + l2 =~= l1);
        assert(list_trace(l1) + list_trace(l2) =~= list_trace(l1));
    } else {
        lemma_trace_append(l1, l2.drop_last());
        assert((l1 + l2).drop_last() =~= l1 + l2.drop_last());
        assert((l1 + l2).last() == l2.last());
        assert(list_trace(l1 + l2) =~= list_trace(l1) + list_trace(l2));
    }
}

/// Rotation acts about the rectangle's own center: a command's replay
/// translates to the center first and rotates only then, and the painted
/// bounds sit symmetrically about the local origin — each painted corner
/// coordinate is exactly minus half the painted extent.
pub proof fn lemma_paint_centered(c: DrawCommand)
    requires
        c.bounded(),
    ensures
        cmd_trace(c)[1] == CanvasOp::Translate(c.rect.position),
        cmd_trace(c)[2] == CanvasOp::Rotate(c.rect.angle),
        rat_eq(spec_neg_half(c.rect.size.x).to_rat(), rat_neg(rat_half(c.rect.size.x.to_rat()))),
        rat_eq(spec_neg_half(c.rect.size.y).to_rat(), rat_neg(rat_half(c.rect.size.y.to_rat()))),
{
}

} // verus!
