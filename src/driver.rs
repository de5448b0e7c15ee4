use vstd::prelude::*;
use crate::naming::{artifact_file, artifact_file_name, artifact_name, artifact_stem};
use crate::part::{ConfigError, PartSpec, MIN_SEGMENTS};
use crate::sweep::{diameter_at, SweepSpec};

verus! {

/// Why a sweep cannot be planned.
#[derive(Debug, Clone, Copy, PartialEq, Eq, Structural)]
pub enum SweepError {
    /// The parts' bores would have fewer than three segments.
    Config(ConfigError),
    /// A diameter of the sweep does not fit an `i64`.
    DiameterOutOfRange,
}

/// One part of a sweep and the name its artifact is exported under.
#[derive(Debug)]
pub struct Job {
    /// The artifact's name, also the solid's name inside the exported mesh.
    pub name: String,
    /// The file the artifact is written to.
    pub file_name: String,
    pub part: PartSpec,
}

/// The part at `index` of a sweep over the given template.
pub open spec fn swept_part(
    sweep: SweepSpec,
    index: int,
    side_length: u64,
    wall_thickness: Option<u64>,
    segments: u32,
    emit_label: bool,
) -> PartSpec {
    PartSpec {
        side_length,
        tube_diameter: diameter_at(sweep.start_diameter as int, sweep.step as int, index) as i64,
        wall_thickness,
        segments,
        emit_label,
    }
}

/// The parts of a sweep, in order of index, each with its artifact name.
/// The segment count is checked before anything else.
pub fn plan_sweep(
    sweep: &SweepSpec,
    side_length: u64,
    wall_thickness: Option<u64>,
    segments: u32,
    emit_label: bool,
) -> (r: Result<Vec<Job>, SweepError>)
    ensures
        segments < MIN_SEGMENTS <==> r == Err::<Vec<Job>, SweepError>(
            SweepError::Config(ConfigError::SegmentsBelowMinimum),
        ),
        (segments >= MIN_SEGMENTS && !sweep.fits()) <==> r == Err::<Vec<Job>, SweepError>(
            SweepError::DiameterOutOfRange,
        ),
        r matches Ok(v) ==> {
            &&& v@.len() == sweep.count
            &&& forall|i: int|
                0 <= i < sweep.count ==> {
                    &&& (#[trigger] v@[i]).part == swept_part(
                        *sweep,
                        i,
                        side_length,
                        wall_thickness,
                        segments,
                        emit_label,
                    )
                    &&& v@[i].part.wf()
                    &&& v@[i].name@ == artifact_stem(
                        i as nat,
                        sweep.count as nat,
                        side_length as nat,
                        diameter_at(sweep.start_diameter as int, sweep.step as int, i),
                        segments as nat,
                    )
                    &&& v@[i].file_name@ == artifact_file_name(
                        i as nat,
                        sweep.count as nat,
                        side_length as nat,
                        diameter_at(sweep.start_diameter as int, sweep.step as int, i),
                        segments as nat,
                    )
                }
        },
{
    if segments < MIN_SEGMENTS {
        return Err(SweepError::Config(ConfigError::SegmentsBelowMinimum));
    }
    let diameters = match sweep.diameters() {
        Some(d) => d,
        None => {
            return Err(SweepError::DiameterOutOfRange);
        },
    };
    let mut jobs: Vec<Job> = Vec::new();
    let mut i: usize = 0;
    while i < sweep.count
        invariant
            i <= sweep.count,
            segments >= MIN_SEGMENTS,
            diameters@.len() == sweep.count,
            forall|k: int|
                0 <= k < sweep.count ==> diameters@[k] as int == diameter_at(
                    sweep.start_diameter as int,
                    sweep.step as int,
                    k,
                ),
            jobs@.len() == i,
            forall|k: int|
                0 <= k < i ==> {
                    &&& (#[trigger] jobs@[k]).part == swept_part(
                        *sweep,
                        k,
                        side_length,
                        wall_thickness,
                        segments,
                        emit_label,
                    )
                    &&& jobs@[k].part.wf()
                    &&& jobs@[k].name@ == artifact_stem(
                        k as nat,
                        sweep.count as nat,
                        side_length as nat,
                        diameter_at(sweep.start_diameter as int, sweep.step as int, k),
                        segments as nat,
                    )
                    &&& jobs@[k].file_name@ == artifact_file_name(
                        k as nat,
                        sweep.count as nat,
                        side_length as nat,
                        diameter_at(sweep.start_diameter as int, sweep.step as int, k),
                        segments as nat,
                    )
                },
        decreases sweep.count - i,
    {
        let d = diameters[i];
        let name = artifact_name(i, sweep.count, side_length, d, segments);
        let file_name = artifact_file(i, sweep.count, side_length, d, segments);
        let part = PartSpec {
            side_length,
            tube_diameter: d,
            wall_thickness,
            segments,
            emit_label,
        };
        jobs.push(Job { name, file_name, part });
        i = i + 1;
    }
    Ok(jobs)
}

} // verus!
