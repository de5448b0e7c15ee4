use vstd::prelude::*;
use crate::text::{label_text, label_text_of};

verus! {

/// The fewest segments that approximate a bore without degenerating.
pub const MIN_SEGMENTS: u32 = 3;

/// Why a part cannot be built.
#[derive(Debug, Clone, Copy, PartialEq, Eq, Structural)]
pub enum ConfigError {
    /// The bore would be approximated by fewer than three segments.
    SegmentsBelowMinimum,
}

/// Where the label is fused relative to the carving of the bore.
#[derive(Debug, Clone, Copy, PartialEq, Eq, Structural)]
pub enum BoreOrder {
    /// Carve the bore, then fuse the label onto the face.
    LabelAfterBore,
    /// Fuse the label, then carve the bore through cube and label alike.
    LabelBeforeBore,
}

/// How the diameter label is rendered and embedded.
#[derive(Debug, Clone, Copy, PartialEq, Eq, Structural)]
pub struct LabelPolicy {
    /// Nominal text size, in micro-units.
    pub text_size: u64,
    /// Depth of the extruded text, in micro-units.
    pub extrude_depth: u64,
    /// Share of the extrusion depth, in percent, by which the label sinks
    /// below the face so that no face of the union is coincident.
    pub sink_percent: u64,
    /// Where the label is fused relative to the bore.
    pub order: BoreOrder,
}

/// The parameters of one part; lengths in micro-units.
#[derive(Debug, Clone, Copy, PartialEq, Eq, Structural)]
pub struct PartSpec {
    /// Side of the cube.
    pub side_length: u64,
    /// Bore diameter; a value of zero or less means no bore.
    pub tube_diameter: i64,
    /// Wall of a double-walled bore: an outer sleeve this much wider than
    /// the bore is fused onto the cube before the bore is carved.
    pub wall_thickness: Option<u64>,
    /// Segments of the polygon that approximates the bore.
    pub segments: u32,
    /// Whether a part with a bore carries its diameter label.
    pub emit_label: bool,
}

/// One step of a part's construction, on a stack of solids.
#[derive(Debug, Clone, Copy, PartialEq, Eq, Structural)]
pub enum Op {
    /// Push a cube spanning `0..side` on each axis.
    Cube { side: i128 },
    /// Push an upright cylinder with its base centred on the origin.
    Cylinder { radius: i128, height: i128, segments: u32 },
    /// Push the flat rendered label text, in the xy-plane.
    Label,
    /// Extrude the flat top solid along z.
    Extrude { depth: i128 },
    /// Rotate the top solid by whole degrees about x, y and z.
    Rotate { x_degrees: i64, y_degrees: i64, z_degrees: i64 },
    /// Move the top solid.
    Translate { x: i128, y: i128, z: i128 },
    /// Replace the two top solids by their union.
    Union,
    /// Replace the two top solids by the lower minus the upper.
    Difference,
}

impl LabelPolicy {
    pub open spec fn wf(&self) -> bool {
        self.sink_percent <= 100
    }

    /// The default label: text 4.5 units high, extruded
    /// 0.1 units and sunk by a tenth of that, fused after the bore.
    pub fn standard() -> (r: LabelPolicy)
        ensures
            r.wf(),
            r.text_size == 4_500_000,
            r.extrude_depth == 100_000,
            r.sink_percent == 10,
            r.order == BoreOrder::LabelAfterBore,
    {
        LabelPolicy {
            text_size: 4_500_000,
            extrude_depth: 100_000,
            sink_percent: 10,
            order: BoreOrder::LabelAfterBore,
        }
    }

    /// How far the label sinks below the face, in nano-units.
    pub open spec fn sink_depth(&self) -> int {
        self.extrude_depth as int * 1000 * self.sink_percent as int / 100
    }
}

impl PartSpec {
    pub open spec fn wf(&self) -> bool {
        self.segments >= MIN_SEGMENTS
    }

    pub open spec fn has_bore(&self) -> bool {
        self.tube_diameter > 0
    }

    pub open spec fn has_label(&self) -> bool {
        self.has_bore() && self.emit_label
    }

    /// A part, refused when its bore would have fewer than three segments.
    pub fn new(
        side_length: u64,
        tube_diameter: i64,
        wall_thickness: Option<u64>,
        segments: u32,
        emit_label: bool,
    ) -> (r: Result<PartSpec, ConfigError>)
        ensures
            segments < MIN_SEGMENTS <==> r == Err::<PartSpec, ConfigError>(
                ConfigError::SegmentsBelowMinimum,
            ),
            r matches Ok(p) ==> p.wf() && p == (PartSpec {
                side_length,
                tube_diameter,
                wall_thickness,
                segments,
                emit_label,
            }),
    {
        if segments < MIN_SEGMENTS {
            Err(ConfigError::SegmentsBelowMinimum)
        } else {
            Ok(PartSpec { side_length, tube_diameter, wall_thickness, segments, emit_label })
        }
    }

    /// The text of the part's label, if it carries one.
    pub fn label(&self) -> (r: Option<String>)
        ensures
            r is Some <==> self.has_label(),
            r matches Some(t) ==> t@ == label_text_of(self.tube_diameter as nat),
    {
        if self.tube_diameter > 0 && self.emit_label {
            Some(label_text(self.tube_diameter as u64))
        } else {
            None
        }
    }
}

/// Moves an upright solid so that its axis is the cube's vertical centreline.
pub open spec fn centre_ops(p: PartSpec) -> Seq<Op> {
    seq![
        Op::Translate {
            x: (p.side_length as int * 500) as i128,
            y: (p.side_length as int * 500) as i128,
            z: 0,
        },
    ]
}

/// An upright cylinder of the given diameter, as tall as the cube, centred.
pub open spec fn centred_cylinder(p: PartSpec, diameter: int) -> Seq<Op> {
    seq![
        Op::Cylinder {
            radius: (diameter * 500) as i128,
            height: (p.side_length as int * 1000) as i128,
            segments: p.segments,
        },
    ] + centre_ops(p)
}

/// Fuses the outer sleeve of a double-walled bore onto the cube.
pub open spec fn sleeve_ops(p: PartSpec) -> Seq<Op> {
    match p.wall_thickness {
        Some(w) => centred_cylinder(p, p.tube_diameter + w) + seq![Op::Union],
        None => Seq::empty(),
    }
}

/// Carves the bore through the whole height of the cube.
pub open spec fn bore_ops(p: PartSpec) -> Seq<Op> {
    centred_cylinder(p, p.tube_diameter as int) + seq![Op::Difference]
}

/// Where the label goes: centred on the face in the xz-plane, sunk below
/// it by the policy's sink depth; `ex` and `ey` are the flat text's
/// extents, in micro-units.
pub open spec fn label_offset(
    p: PartSpec,
    policy: LabelPolicy,
    ex: u64,
    ey: u64,
) -> (int, int, int) {
    (
        (p.side_length as int - ex as int) * 500,
        -policy.sink_depth(),
        (p.side_length as int - ey as int) * 500,
    )
}

/// Extrudes the label, turns it onto the xz-plane, places it and fuses it.
pub open spec fn label_ops(p: PartSpec, policy: LabelPolicy, ex: u64, ey: u64) -> Seq<Op> {
    let o = label_offset(p, policy, ex, ey);
    seq![
        Op::Label,
        Op::Extrude { depth: (policy.extrude_depth as int * 1000) as i128 },
        Op::Rotate { x_degrees: 90, y_degrees: 0, z_degrees: 0 },
        Op::Translate { x: o.0 as i128, y: o.1 as i128, z: o.2 as i128 },
        Op::Union,
    ]
}

/// The construction of a part: a cube; for a bore, the sleeve if any, then
/// the bore and the label in the policy's order.
pub open spec fn plan_of(p: PartSpec, policy: LabelPolicy, ex: u64, ey: u64) -> Seq<Op> {
    let cube = seq![Op::Cube { side: (p.side_length as int * 1000) as i128 }];
    if !p.has_bore() {
        cube
    } else if !p.has_label() {
        cube + sleeve_ops(p) + bore_ops(p)
    } else if policy.order == BoreOrder::LabelAfterBore {
        cube + sleeve_ops(p) + bore_ops(p) + label_ops(p, policy, ex, ey)
    } else {
        cube + sleeve_ops(p) + label_ops(p, policy, ex, ey) + bore_ops(p)
    }
}

fn push_centred_cylinder(ops: &mut Vec<Op>, p: &PartSpec, diameter: i128)
    requires
        0 <= diameter < 0x1_0000_0000_0000_0000_0000,
    ensures
        final(ops)@ == old(ops)@ + centred_cylinder(*p, diameter as int),
{
    let side: i128 = p.side_length as i128;
    ops.push(Op::Cylinder { radius: diameter * 500, height: side * 1000, segments: p.segments });
    ops.push(Op::Translate { x: side * 500, y: side * 500, z: 0 });
    proof {
        assert(final(ops)@ =~= old(ops)@ + centred_cylinder(*p, diameter as int));
    }
}

fn push_bore(ops: &mut Vec<Op>, p: &PartSpec)
    requires
        p.has_bore(),
    ensures
        final(ops)@ == old(ops)@ + bore_ops(*p),
{
    push_centred_cylinder(ops, p, p.tube_diameter as i128);
    ops.push(Op::Difference);
    proof {
        assert(final(ops)@ =~= old(ops)@ + bore_ops(*p));
    }
}

fn push_label(ops: &mut Vec<Op>, p: &PartSpec, policy: &LabelPolicy, ex: u64, ey: u64)
    requires
        policy.wf(),
    ensures
        final(ops)@ == old(ops)@ + label_ops(*p, *policy, ex, ey),
{
    let side: i128 = p.side_length as i128;
    let depth: i128 = policy.extrude_depth as i128 * 1000;
    assert(depth * (policy.sink_percent as int) <= 0x1_0000_0000_0000_0000 * 1000 * 100)
        by (nonlinear_arith)
        requires
            0 <= depth <= 0x1_0000_0000_0000_0000 * 1000,
            0 <= policy.sink_percent <= 100,
    ;
    let sink: i128 = depth * (policy.sink_percent as i128) / 100;
    ops.push(Op::Label);
    ops.push(Op::Extrude { depth });
    ops.push(Op::Rotate { x_degrees: 90, y_degrees: 0, z_degrees: 0 });
    ops.push(
        Op::Translate {
            x: (side - ex as i128) * 500,
            y: -sink,
            z: (side - ey as i128) * 500,
        },
    );
    ops.push(Op::Union);
    proof {
        assert(final(ops)@ =~= old(ops)@ + label_ops(*p, *policy, ex, ey));
    }
}

/// The construction plan of a part. `ex` and `ey` are the extents of the
/// flat label text along x and y, in micro-units; a part without a label
/// ignores them.
pub fn part_plan(p: &PartSpec, policy: &LabelPolicy, ex: u64, ey: u64) -> (r: Vec<Op>)
    requires
        p.wf(),
        policy.wf(),
    ensures
        r@ == plan_of(*p, *policy, ex, ey),
{
    let mut ops: Vec<Op> = Vec::new();
    ops.push(Op::Cube { side: p.side_length as i128 * 1000 });
    if p.tube_diameter > 0 {
        match p.wall_thickness {
            Some(w) => {
                push_centred_cylinder(&mut ops, p, p.tube_diameter as i128 + w as i128);
                ops.push(Op::Union);
            },
            None => {},
        }
        if !p.emit_label {
            push_bore(&mut ops, p);
        } else if policy.order == BoreOrder::LabelAfterBore {
            push_bore(&mut ops, p);
            push_label(&mut ops, p, policy, ex, ey);
        } else {
            push_label(&mut ops, p, policy, ex, ey);
            push_bore(&mut ops, p);
        }
    }
    proof {
        assert(ops@ =~= plan_of(*p, *policy, ex, ey));
    }
    ops
}

/// The number of solids on the stack after `op`, from `depth` solids
/// before it; `-1` when the step lacks an operand, and from then on.
pub open spec fn op_effect(op: Op, depth: int) -> int {
    if depth < 0 {
        -1
    } else {
        match op {
            Op::Cube { .. } | Op::Cylinder { .. } | Op::Label => depth + 1,
            Op::Union | Op::Difference => if depth >= 2 {
                depth - 1
            } else {
                -1
            },
            _ => if depth >= 1 {
                depth
            } else {
                -1
            },
        }
    }
}

/// The number of solids on the stack after running `ops` from `depth`.
pub open spec fn run_depth(ops: Seq<Op>, depth: int) -> int
    decreases ops.len(),
{
    if ops.len() == 0 {
        depth
    } else {
        run_depth(ops.drop_first(), op_effect(ops[0], depth))
    }
}

proof fn lemma_run_concat(a: Seq<Op>, b: Seq<Op>, depth: int)
    ensures
        run_depth(a + b, depth) == run_depth(b, run_depth(a, depth)),
    decreases a.len(),
{
    if a.len() > 0 {
        assert((a + b).drop_first() =~= a.drop_first() + b);
        lemma_run_concat(a.drop_first(), b, op_effect(a[0], depth));
    } else {
        assert(a + b =~= b);
    }
}

proof fn lemma_blocks_keep_depth(p: PartSpec, policy: LabelPolicy, ex: u64, ey: u64, depth: int)
    requires
        depth >= 1,
    ensures
        run_depth(sleeve_ops(p), depth) == depth,
        run_depth(bore_ops(p), depth) == depth,
        run_depth(label_ops(p, policy, ex, ey), depth) == depth,
{
    reveal_with_fuel(run_depth, 6);
    let c = centred_cylinder(p, p.tube_diameter as int);
    assert(bore_ops(p) =~= seq![c[0], c[1], Op::Difference]);
    match p.wall_thickness {
        Some(w) => {
            let s = centred_cylinder(p, p.tube_diameter + w);
            assert(sleeve_ops(p) =~= seq![s[0], s[1], Op::Union]);
        },
        None => {},
    }
}

/// Every step of a part's plan finds the solids it works on, and exactly
/// one solid, the finished part, remains.
pub proof fn plan_leaves_one_solid(p: PartSpec, policy: LabelPolicy, ex: u64, ey: u64)
    ensures
        run_depth(plan_of(p, policy, ex, ey), 0) == 1,
{
    let cube = seq![Op::Cube { side: (p.side_length as int * 1000) as i128 }];
    reveal_with_fuel(run_depth, 2);
    assert(run_depth(cube, 0) == 1);
    lemma_blocks_keep_depth(p, policy, ex, ey, 1);
    let s = sleeve_ops(p);
    let b = bore_ops(p);
    let l = label_ops(p, policy, ex, ey);
    lemma_run_concat(cube, s, 0);
    lemma_run_concat(cube + s, b, 0);
    lemma_run_concat(cube + s, l, 0);
    lemma_run_concat(cube + s + b, l, 0);
    lemma_run_concat(cube + s + l, b, 0);
}

/// A part without a bore is the bare cube: no bore is carved and no label
/// is fused.
pub proof fn unbored_part_is_plain_cube(p: PartSpec, policy: LabelPolicy, ex: u64, ey: u64)
    requires
        p.tube_diameter <= 0,
    ensures
        plan_of(p, policy, ex, ey) == seq![Op::Cube { side: (p.side_length as int * 1000) as i128 }],
{
}

} // verus!
