use crate::common::{factor_in_range, GrowCurveConfigType, Scalar};
use crate::idmap::IdMap;
use vstd::prelude::*;

verus! {

/// A growth-curve reference attached to a static config record: scale the
/// property `prop_type` by the curve named `grow_curve`.
#[derive(Clone, Copy, PartialEq, Eq, Structural)]
pub struct PropGrowCurve {
    pub prop_type: u64,
    pub grow_curve: u64,
}

/// Every factor of a curve sequence is an acceptable growth factor.
pub open spec fn curve_seq_wf(s: Seq<Scalar>) -> bool {
    forall|i: int| 0 <= i < s.len() ==> factor_in_range(s[i])
}

/// Index into a curve defined for levels `1..=len`: a level outside that
/// domain clamps to the nearest defined endpoint.
pub open spec fn spec_clamped_index(level: u32, len: int) -> int
    recommends
        len > 0,
{
    if level < 1 {
        0
    } else if level as int > len {
        len - 1
    } else {
        level as int - 1
    }
}

/// One family's growth curves: curve identifier to level-indexed factor
/// sequence, the factor for level `L` standing at position `L - 1`.
pub struct GrowCurveTable {
    pub curves: IdMap<Vec<Scalar>>,
}

impl GrowCurveTable {
    pub open spec fn wf(&self) -> bool {
        &&& self.curves.wf()
        &&& forall|i: int|
            0 <= i < self.curves.entries@.len() ==> curve_seq_wf(
                #[trigger] self.curves.entries@[i].1@,
            )
    }

    /// The factor the table yields for `curve_id` at `level`: `None` when the
    /// curve is unknown or empty, otherwise the entry at the clamped level.
    pub open spec fn spec_factor(&self, curve_id: u64, level: u32) -> Option<Scalar> {
        if self.curves.has_key(curve_id) {
            let s = self.curves.value_of(curve_id)@;
            if s.len() == 0 {
                None
            } else {
                Some(s[spec_clamped_index(level, s.len() as int)])
            }
        } else {
            None
        }
    }

    pub fn new() -> (r: Self)
        ensures
            r.wf(),
            r.curves.entries@.len() == 0,
    {
        GrowCurveTable { curves: IdMap::new() }
    }

    /// Add or replace a curve. Factors out of range are rejected and leave
    /// the table unchanged.
    pub fn add_curve(&mut self, curve_id: u64, factors: Vec<Scalar>) -> (r: bool)
        requires
            old(self).wf(),
        ensures
            final(self).wf(),
            r == curve_seq_wf(factors@),
            r && old(self).curves.has_key(curve_id) ==> final(self).curves.entries@ == old(
                self,
            ).curves.entries@.update(
                crate::idmap::seq_index_of(old(self).curves.entries@, curve_id),
                (curve_id, factors),
            ),
            r && !old(self).curves.has_key(curve_id) ==> final(self).curves.entries@ == old(
                self,
            ).curves.entries@.push((curve_id, factors)),
            r ==> final(self).curves.has_key(curve_id) && final(self).curves.value_of(curve_id)@
                == factors@,
            !r ==> *final(self) == *old(self),
    {
        let n = factors.len();
        let mut i: usize = 0;
        while i < n
            invariant
                *self == *old(self),
                old(self).wf(),
                n == factors@.len(),
                i <= n,
                forall|j: int| 0 <= j < i ==> factor_in_range(#[trigger] factors@[j]),
            decreases n - i,
        {
            let f = factors[i];
            if !(0 <= f && f <= crate::common::FACTOR_BOUND) {
                return false;
            }
            i += 1;
        }
        assert(curve_seq_wf(factors@));
        let ghost orig = self.curves.entries@;
        self.curves.set(curve_id, factors);
        proof {
            assert forall|k: int|
                0 <= k < self.curves.entries@.len() implies curve_seq_wf(
                #[trigger] self.curves.entries@[k].1@,
            ) by {
                if crate::idmap::seq_has_key(orig, curve_id) {
                    let w = crate::idmap::seq_index_of(orig, curve_id);
                    if k == w {
                        assert(self.curves.entries@[k].1 == factors);
                    } else {
                        assert(self.curves.entries@[k] == orig[k]);
                        assert(curve_seq_wf(orig[k].1@));
                    }
                } else {
                    if k == orig.len() {
                        assert(self.curves.entries@[k].1 == factors);
                    } else {
                        assert(self.curves.entries@[k] == orig[k]);
                        assert(curve_seq_wf(orig[k].1@));
                    }
                }
            }
        }
        true
    }

    /// Look a factor up; exactly the table's abstract factor.
    pub fn factor(&self, curve_id: u64, level: u32) -> (r: Option<Scalar>)
        requires
            self.wf(),
        ensures
            r == self.spec_factor(curve_id, level),
            (match r {
                Some(f) => factor_in_range(f),
                None => true,
            }),
    {
        match self.curves.get(curve_id) {
            None => None,
            Some(curve) => {
                let len = curve.len();
                if len == 0 {
                    None
                } else {
                    let idx: usize = if level < 1 {
                        0
                    } else if level as usize > len {
                        len - 1
                    } else {
                        (level - 1) as usize
                    };
                    proof {
                        let w = self.curves.index_of(curve_id);
                        assert(curve_seq_wf(self.curves.entries@[w].1@));
                    }
                    Some(curve[idx])
                }
            },
        }
    }
}

/// The two curve families: monster and avatar identifiers share a namespace
/// but resolve against distinct tables.
pub struct GrowCurveTables {
    pub monster: GrowCurveTable,
    pub avatar: GrowCurveTable,
}

impl GrowCurveTables {
    pub open spec fn wf(&self) -> bool {
        self.monster.wf() && self.avatar.wf()
    }

    /// Route a scope tag to its family's table.
    pub open spec fn spec_table_for(&self, config_type: GrowCurveConfigType) -> GrowCurveTable {
        match config_type {
            GrowCurveConfigType::Monster => self.monster,
            GrowCurveConfigType::Avatar => self.avatar,
        }
    }

    pub fn new() -> (r: Self)
        ensures
            r.wf(),
            r.monster.curves.entries@.len() == 0,
            r.avatar.curves.entries@.len() == 0,
    {
        GrowCurveTables { monster: GrowCurveTable::new(), avatar: GrowCurveTable::new() }
    }

    pub fn table_for(&self, config_type: GrowCurveConfigType) -> (r: &GrowCurveTable)
        ensures
            *r == self.spec_table_for(config_type),
    {
        match config_type {
            GrowCurveConfigType::Monster => &self.monster,
            GrowCurveConfigType::Avatar => &self.avatar,
        }
    }
}

} // verus!
