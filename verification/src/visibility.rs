//! The visibility resolver: recomputes the minimal accessibility modifier an
//! emitted item needs once it is wrapped in extra module layers.

use vstd::prelude::*;

use crate::ast::{
    Ident, Visibility, VisibilityV, crate_name, ident_v, idents_v, lemma_idents_v, super_name,
};
use crate::util::{dup_ident, dup_idents, is_crate_name};

verus! {

/// `n` repetitions of the parent-module segment.
pub open spec fn super_segments(n: nat) -> Seq<Seq<char>> {
    Seq::new(n, |i: int| super_name())
}

/// A visibility is well formed when a path form actually names a path.
pub open spec fn visibility_wf(v: VisibilityV) -> bool {
    match v {
        VisibilityV::PublicInPath(path) => path.len() > 0,
        _ => true,
    }
}

/// What the resolver yields for a declared visibility and a nesting depth:
/// a private item becomes visible exactly `levels` modules up; a path
/// already rooted at the whole-crate marker is unchanged; any other path is
/// re-rooted by prepending `levels` parent-module segments; crate-wide and
/// fully public visibilities are unaffected by nesting.
pub open spec fn expectation_visibility_s(vis: VisibilityV, levels: nat) -> VisibilityV {
    match vis {
        VisibilityV::Private => VisibilityV::PublicInPath(super_segments(levels)),
        VisibilityV::PublicInPath(path) => {
            if path.len() > 0 && path[0] == crate_name() {
                VisibilityV::PublicInPath(path)
            } else {
                VisibilityV::PublicInPath(super_segments(levels) + path)
            }
        },
        VisibilityV::PublicInCrate => VisibilityV::PublicInCrate,
        VisibilityV::Public => VisibilityV::Public,
    }
}

/// A fresh `super` identifier at a given location.
pub(crate) fn super_ident(loc: u64) -> (r: Ident)
    ensures
        r@ == super_name(),
        r.loc == loc,
{
    let mut name: Vec<char> = Vec::new();
    name.push('s');
    name.push('u');
    name.push('p');
    name.push('e');
    name.push('r');
    proof {
        assert(name@ =~= super_name());
    }
    Ident { name, loc }
}

/// The visibility that a synthesized expectation item must carry, given the
/// original method's visibility and how many modules deep the item is
/// emitted.
pub fn expectation_visibility(vis: &Visibility, levels: u32) -> (r: Visibility)
    requires
        levels >= 1,
        visibility_wf(vis@),
    ensures
        r@ == expectation_visibility_s(vis@, levels as nat),
{
    match vis {
        Visibility::Private { loc } => {
            let mut path: Vec<Ident> = Vec::new();
            let mut k: u32 = 0;
            while k < levels
                invariant
                    k <= levels,
                    path@.len() == k,
                    forall|j: int| 0 <= j < k ==> ident_v(path@[j]) == super_name(),
                decreases levels - k,
            {
                let s = super_ident(*loc);
                path.push(s);
                k += 1;
            }
            proof {
                lemma_idents_v(path@);
                assert(idents_v(path@) =~= super_segments(levels as nat));
            }
            Visibility::PublicInPath { path }
        },
        Visibility::PublicInPath { path } => {
            if is_crate_name(&path[0].name) {
                proof {
                    lemma_idents_v(path@);
                }
                Visibility::PublicInPath { path: dup_idents(path) }
            } else {
                let loc = path[0].loc;
                let mut out: Vec<Ident> = Vec::new();
                let mut k: u32 = 0;
                while k < levels
                    invariant
                        k <= levels,
                        out@.len() == k,
                        forall|j: int| 0 <= j < k ==> ident_v(out@[j]) == super_name(),
                    decreases levels - k,
                {
                    let s = super_ident(loc);
                    out.push(s);
                    k += 1;
                }
                let n = path.len();
                let mut i: usize = 0;
                while i < n
                    invariant
                        n == path@.len(),
                        i <= n,
                        out@.len() == levels + i,
                        forall|j: int| 0 <= j < levels ==> ident_v(out@[j]) == super_name(),
                        forall|j: int|
                            0 <= j < i ==> ident_v(out@[levels + j]) == ident_v(path@[j]),
                    decreases n - i,
                {
                    let d = dup_ident(&path[i]);
                    out.push(d);
                    i += 1;
                }
                proof {
                    lemma_idents_v(out@);
                    lemma_idents_v(path@);
                    assert(idents_v(out@) =~= super_segments(levels as nat) + idents_v(path@));
                }
                Visibility::PublicInPath { path: out }
            }
        },
        Visibility::PublicInCrate => Visibility::PublicInCrate,
        Visibility::Public => Visibility::Public,
    }
}

/// Resolving a private declaration always yields a path of exactly `levels`
/// parent-module segments, and a crate-wide declaration is depth-invariant.
pub proof fn lemma_visibility_round_trip(levels: nat, other: nat)
    requires
        levels >= 1,
        other >= 1,
    ensures
        expectation_visibility_s(VisibilityV::Private, levels)
            == VisibilityV::PublicInPath(super_segments(levels)),
        super_segments(levels).len() == levels,
        forall|j: int|
            0 <= j < levels ==> super_segments(levels)[j] == super_name(),
        expectation_visibility_s(VisibilityV::PublicInCrate, levels)
            == expectation_visibility_s(VisibilityV::PublicInCrate, other),
{
}

} // verus!
