use vstd::prelude::*;

verus! {

/// The bore diameter of the part at `index` of a sweep.
pub open spec fn diameter_at(start: int, step: int, index: int) -> int {
    start + index * step
}

/// A sweep of `count` parts whose bore diameters (micro-units) start at
/// `start_diameter` and grow by `step` from one part to the next.
pub struct SweepSpec {
    pub count: usize,
    pub start_diameter: i64,
    pub step: i64,
}

impl SweepSpec {
    /// Every diameter of the sweep is a value of `i64`.
    pub open spec fn fits(&self) -> bool {
        forall|i: int|
            0 <= i < self.count ==> i64::MIN <= #[trigger] diameter_at(
                self.start_diameter as int,
                self.step as int,
                i,
            ) <= i64::MAX
    }

    /// The bore diameter of each part of the sweep, in order; `None` when
    /// one of them does not fit an `i64`.
    pub fn diameters(&self) -> (r: Option<Vec<i64>>)
        ensures
            r is Some <==> self.fits(),
            r matches Some(v) ==> v@.len() == self.count && forall|i: int|
                0 <= i < self.count ==> v@[i] as int == diameter_at(
                    self.start_diameter as int,
                    self.step as int,
                    i,
                ),
    {
        let mut v: Vec<i64> = Vec::new();
        let mut i: usize = 0;
        while i < self.count
            invariant
                i <= self.count,
                v@.len() == i,
                forall|k: int|
                    0 <= k < i ==> v@[k] as int == diameter_at(
                        self.start_diameter as int,
                        self.step as int,
                        k,
                    ),
            decreases self.count - i,
        {
            assert((i as int) * (self.step as int) <= 0xffff_ffff_ffff_ffff * 0x8000_0000_0000_0000)
                by (nonlinear_arith)
                requires
                    0 <= i < 0x1_0000_0000_0000_0000,
                    -0x8000_0000_0000_0000 <= self.step < 0x8000_0000_0000_0000,
            ;
            assert((i as int) * (self.step as int) >= -0xffff_ffff_ffff_ffff * 0x8000_0000_0000_0000)
                by (nonlinear_arith)
                requires
                    0 <= i < 0x1_0000_0000_0000_0000,
                    -0x8000_0000_0000_0000 <= self.step < 0x8000_0000_0000_0000,
            ;
            let d: i128 = self.start_diameter as i128 + (i as i128) * (self.step as i128);
            if d < i64::MIN as i128 || d > i64::MAX as i128 {
                assert(!(i64::MIN <= diameter_at(self.start_diameter as int, self.step as int, i as int) <= i64::MAX));
                return None;
            }
            v.push(d as i64);
            i = i + 1;
        }
        assert forall|k: int| 0 <= k < self.count implies i64::MIN <= #[trigger] diameter_at(
            self.start_diameter as int,
            self.step as int,
            k,
        ) <= i64::MAX by {
            assert(v@[k] as int == diameter_at(self.start_diameter as int, self.step as int, k));
        }
        Some(v)
    }
}

/// With a positive step the diameters of a sweep strictly increase with
/// the index.
pub proof fn sweep_diameters_increase(start: int, step: int, i: int, j: int)
    requires
        step > 0,
        0 <= i < j,
    ensures
        diameter_at(start, step, i) < diameter_at(start, step, j),
{
    assert(i * step < j * step) by (nonlinear_arith)
        requires
            step > 0,
            i < j,
    ;
}

} // verus!
