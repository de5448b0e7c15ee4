use cube_bore::driver::{plan_sweep, SweepError};
use cube_bore::part::{part_plan, BoreOrder, ConfigError, LabelPolicy, Op, PartSpec};
use cube_bore::sweep::SweepSpec;

fn stack_depth(ops: &[Op]) -> Option<usize> {
    let mut depth: usize = 0;
    for op in ops {
        depth = match op {
            Op::Cube { .. } | Op::Cylinder { .. } | Op::Label => depth + 1,
            Op::Union | Op::Difference => {
                if depth < 2 {
                    return None;
                }
                depth - 1
            }
            _ => {
                if depth < 1 {
                    return None;
                }
                depth
            }
        };
    }
    Some(depth)
}

#[test]
fn standard_policy_values() {
    let p = LabelPolicy::standard();
    assert_eq!(p.text_size, 4_500_000);
    assert_eq!(p.extrude_depth, 100_000);
    assert_eq!(p.sink_percent, 10);
    assert_eq!(p.order, BoreOrder::LabelAfterBore);
}

#[test]
fn too_few_segments_is_refused() {
    assert_eq!(PartSpec::new(10_000_000, 1_000_000, None, 2, true), Err(ConfigError::SegmentsBelowMinimum));
    assert!(PartSpec::new(10_000_000, 1_000_000, None, 3, true).is_ok());
}

#[test]
fn plain_cube_plan() {
    let p = PartSpec::new(10_000_000, 0, None, 50, true).unwrap();
    assert_eq!(p.label(), None);
    let ops = part_plan(&p, &LabelPolicy::standard(), 123, 456);
    assert_eq!(ops, vec![Op::Cube { side: 10_000_000_000 }]);
}

#[test]
fn bored_and_labelled_plan() {
    let p = PartSpec::new(20_000_000, 5_000_000, None, 50, true).unwrap();
    assert_eq!(p.label(), Some("5000".to_string()));
    let ops = part_plan(&p, &LabelPolicy::standard(), 10_000_000, 4_000_000);
    assert_eq!(
        ops,
        vec![
            Op::Cube { side: 20_000_000_000 },
            Op::Cylinder { radius: 2_500_000_000, height: 20_000_000_000, segments: 50 },
            Op::Translate { x: 10_000_000_000, y: 10_000_000_000, z: 0 },
            Op::Difference,
            Op::Label,
            Op::Extrude { depth: 100_000_000 },
            Op::Rotate { x_degrees: 90, y_degrees: 0, z_degrees: 0 },
            Op::Translate { x: 5_000_000_000, y: -10_000_000, z: 8_000_000_000 },
            Op::Union,
        ]
    );
    assert_eq!(stack_depth(&ops), Some(1));
}

#[test]
fn label_before_bore_and_flush() {
    let p = PartSpec::new(10_000_000, 3_000_000, None, 8, true).unwrap();
    let policy = LabelPolicy { text_size: 4_500_000, extrude_depth: 100_000, sink_percent: 0, order: BoreOrder::LabelBeforeBore };
    let ops = part_plan(&p, &policy, 12_000_000, 3_000_000);
    assert_eq!(ops[1], Op::Label);
    assert_eq!(ops[4], Op::Translate { x: -1_000_000_000, y: 0, z: 3_500_000_000 });
    assert_eq!(ops[8], Op::Difference);
    assert_eq!(ops.len(), 9);
    assert_eq!(stack_depth(&ops), Some(1));
}

#[test]
fn double_walled_unlabelled_plan() {
    let p = PartSpec::new(10_000_000, 2_000_000, Some(1_000_001), 6, false).unwrap();
    assert_eq!(p.label(), None);
    let ops = part_plan(&p, &LabelPolicy::standard(), 0, 0);
    assert_eq!(
        ops,
        vec![
            Op::Cube { side: 10_000_000_000 },
            Op::Cylinder { radius: 1_500_000_500, height: 10_000_000_000, segments: 6 },
            Op::Translate { x: 5_000_000_000, y: 5_000_000_000, z: 0 },
            Op::Union,
            Op::Cylinder { radius: 1_000_000_000, height: 10_000_000_000, segments: 6 },
            Op::Translate { x: 5_000_000_000, y: 5_000_000_000, z: 0 },
            Op::Difference,
        ]
    );
    assert_eq!(stack_depth(&ops), Some(1));
}

#[test]
fn sweep_diameters_increase_with_positive_step() {
    let s = SweepSpec { count: 5, start_diameter: 1_000_000, step: 250_000 };
    let d = s.diameters().unwrap();
    assert_eq!(d, vec![1_000_000, 1_250_000, 1_500_000, 1_750_000, 2_000_000]);
    for i in 0..4 {
        assert!(d[i] < d[i + 1]);
    }
}

#[test]
fn sweep_out_of_range_is_refused() {
    let s = SweepSpec { count: 3, start_diameter: i64::MAX - 1, step: 1 };
    assert_eq!(s.diameters(), None);
    assert!(matches!(plan_sweep(&s, 10_000_000, None, 50, true), Err(SweepError::DiameterOutOfRange)));
    let edge = SweepSpec { count: 2, start_diameter: i64::MAX - 1, step: 1 };
    assert_eq!(edge.diameters(), Some(vec![i64::MAX - 1, i64::MAX]));
}

#[test]
fn sweep_with_too_few_segments_is_refused() {
    let s = SweepSpec { count: 3, start_diameter: i64::MAX - 1, step: 1 };
    assert!(matches!(
        plan_sweep(&s, 10_000_000, None, 2, true),
        Err(SweepError::Config(ConfigError::SegmentsBelowMinimum))
    ));
}

#[test]
fn empty_sweep() {
    let s = SweepSpec { count: 0, start_diameter: 0, step: 0 };
    assert_eq!(plan_sweep(&s, 10_000_000, None, 50, true).unwrap().len(), 0);
}

#[test]
fn scenario_single_bored_cube() {
    let s = SweepSpec { count: 1, start_diameter: 5_000_000, step: 0 };
    let jobs = plan_sweep(&s, 20_000_000, None, 50, true).unwrap();
    assert_eq!(jobs.len(), 1);
    assert_eq!(jobs[0].name, "cube-with-tube.len_side-20.000_tube_diameter-5.000_segments-50");
    assert_eq!(jobs[0].part.tube_diameter, 5_000_000);
    assert!(jobs[0].part.label().is_some());
    let ops = part_plan(&jobs[0].part, &LabelPolicy::standard(), 1, 1);
    assert!(ops.contains(&Op::Difference));
    assert!(ops.contains(&Op::Label));
}

#[test]
fn scenario_single_plain_cube() {
    let s = SweepSpec { count: 1, start_diameter: 0, step: 0 };
    let jobs = plan_sweep(&s, 10_000_000, None, 50, true).unwrap();
    assert_eq!(jobs.len(), 1);
    assert_eq!(jobs[0].name, "cube.len_side-10.000");
    let ops = part_plan(&jobs[0].part, &LabelPolicy::standard(), 1, 1);
    assert_eq!(ops, vec![Op::Cube { side: 10_000_000_000 }]);
}

#[test]
fn scenario_three_part_sweep() {
    let s = SweepSpec { count: 3, start_diameter: 2_000_000, step: 1_000_000 };
    let jobs = plan_sweep(&s, 10_000_000, None, 50, true).unwrap();
    let diameters: Vec<i64> = jobs.iter().map(|j| j.part.tube_diameter).collect();
    assert_eq!(diameters, vec![2_000_000, 3_000_000, 4_000_000]);
    assert_eq!(jobs[0].name, "cube-with-tube-0.len_side-10.000_tube_diameter-2.000_segments-50");
    assert_eq!(jobs[1].name, "cube-with-tube-1.len_side-10.000_tube_diameter-3.000_segments-50");
    assert_eq!(jobs[2].name, "cube-with-tube-2.len_side-10.000_tube_diameter-4.000_segments-50");
}

#[test]
fn sweep_names_are_unique() {
    let s = SweepSpec { count: 12, start_diameter: -2_000_000, step: 500_000 };
    let jobs = plan_sweep(&s, 10_000_000, None, 50, false).unwrap();
    assert_eq!(jobs[0].file_name, "cube-0.len_side-10.000.stl");
    assert_eq!(jobs[11].file_name, "cube-with-tube-11.len_side-10.000_tube_diameter-3.500_segments-50.stl");
    for a in 0..jobs.len() {
        for b in 0..jobs.len() {
            if a != b {
                assert_ne!(jobs[a].name, jobs[b].name);
            }
        }
    }
}
