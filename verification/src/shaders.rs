//! Shader-source selection by shading-language tier.
//!
//! Each pipeline ships several source variants of its vertex and fragment
//! shaders, tagged by the minimum shading-language version that can compile
//! them; the source text itself is an opaque precompiled artifact the host
//! resolves by version. Construction picks, per shader, the highest variant
//! the device supports.

use vstd::prelude::*;

verus! {

/// The shading-language version of the baseline shader variants.
pub const GLSL_120: u32 = 120;

/// The shading-language version of the newer shader variants.
pub const GLSL_150: u32 = 150;

/// A set of source variants of one shader, each entry the minimum
/// shading-language version that can compile that variant.
#[derive(Clone, PartialEq, Eq, Debug)]
pub struct ShaderSource {
    pub versions: Vec<u32>,
}

/// The highest version among `versions` that a device of tier `tier`
/// supports, or `None` when the device supports none of them.
pub open spec fn spec_choose_version(versions: Seq<u32>, tier: u32) -> Option<u32>
    decreases versions.len(),
{
    if versions.len() == 0 {
        None
    } else {
        let rest = spec_choose_version(versions.drop_last(), tier);
        let v = versions.last();
        if v <= tier {
            match rest {
                None => Some(v),
                Some(b) => if v >= b { Some(v) } else { Some(b) },
            }
        } else {
            rest
        }
    }
}

impl ShaderSource {
    /// Picks the highest variant this device tier supports, falling through
    /// to lower tiers; `None` when even the lowest variant needs more.
    pub fn choose_version(&self, tier: u32) -> (r: Option<u32>)
        ensures
            r == spec_choose_version(self.versions@, tier),
    {
        let mut best: Option<u32> = None;
        let mut i: usize = 0;
        while i < self.versions.len()
            invariant
                i <= self.versions.len(),
                best == spec_choose_version(self.versions@.take(i as int), tier),
            decreases self.versions.len() - i,
        {
            let v = self.versions[i];
            if v <= tier {
                best = match best {
                    None => Some(v),
                    Some(b) => if v >= b { Some(v) } else { Some(b) },
                };
            }
            proof {
                assert(self.versions@.take(i + 1 as int).drop_last() =~= self.versions@.take(
                    i as int,
                ));
                assert(self.versions@.take(i + 1 as int).last() == self.versions@[i as int]);
            }
            i = i + 1;
        }
        proof {
            assert(self.versions@.take(self.versions@.len() as int) =~= self.versions@);
        }
        best
    }
}

/// Law: the selected variant is compatible and highest — a chosen version is
/// offered, never requires a higher tier than the device reports, and no
/// offered variant that the device supports is higher; when none is chosen,
/// the device supports no offered variant at all.
pub proof fn lemma_choose_version_highest_compatible(versions: Seq<u32>, tier: u32)
    ensures
        match spec_choose_version(versions, tier) {
            Some(b) => versions.contains(b) && b <= tier && forall|i: int|
                0 <= i < versions.len() && versions[i] <= tier ==> versions[i] <= b,
            None => forall|i: int| 0 <= i < versions.len() ==> versions[i] > tier,
        },
    decreases versions.len(),
{
    if versions.len() > 0 {
        lemma_choose_version_highest_compatible(versions.drop_last(), tier);
        assert(forall|i: int|
            0 <= i < versions.len() - 1 ==> versions[i] == versions.drop_last()[i]);
        match spec_choose_version(versions, tier) {
            Some(b) => {
                if versions.last() <= tier && b == versions.last() {
                    assert(versions[versions.len() - 1] == b);
                    assert(versions.contains(b));
                } else {
                    assert(versions.drop_last().contains(b));
                    let j = choose|j: int|
                        0 <= j < versions.drop_last().len() && versions.drop_last()[j] == b;
                    assert(versions[j] == b);
                    assert(versions.contains(b));
                }
            },
            None => {},
        }
    }
}

/// The variants bundled for every shader of both pipelines: a baseline
/// variant and a newer one.
pub open spec fn spec_bundled_versions() -> Seq<u32> {
    seq![GLSL_120, GLSL_150]
}

/// Returns the bundled variant set shared by the vertex and fragment shaders
/// of both pipelines.
pub fn bundled_shader_source() -> (s: ShaderSource)
    ensures
        s.versions@ == spec_bundled_versions(),
{
    let mut v: Vec<u32> = Vec::new();
    v.push(GLSL_120);
    v.push(GLSL_150);
    proof {
        assert(v@ =~= spec_bundled_versions());
    }
    ShaderSource { versions: v }
}

/// A linked shader program, identified by the shading-language version chosen
/// for each of its two stages.
#[derive(Clone, Copy, PartialEq, Eq, Structural, Debug)]
pub struct Program {
    pub vertex_version: u32,
    pub fragment_version: u32,
}

} // verus!
