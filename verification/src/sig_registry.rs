//! Interning of Wasm function signatures.
//!
//! A store keeps one [`SignatureRegistry`].  Every signature reachable from
//! an instance is registered before the instance becomes callable, and equal
//! signatures always intern to the same dense index, which is what the
//! indirect-call type check compares.

use vstd::prelude::*;

use crate::types::FuncType;

verus! {

/// The first index of `types` whose signature equals `v`.
pub open spec fn spec_find_sig(
    types: Seq<FuncType>,
    v: (Seq<crate::types::ValType>, Seq<crate::types::ValType>),
) -> Option<int>
    decreases types.len(),
{
    if types.len() == 0 {
        None
    } else if types[0]@ == v {
        Some(0)
    } else {
        match spec_find_sig(types.drop_first(), v) {
            Some(i) => Some(i + 1),
            None => None,
        }
    }
}

/// The signatures of `types`, by view.
pub open spec fn spec_sig_views(types: Seq<FuncType>) -> Seq<
    (Seq<crate::types::ValType>, Seq<crate::types::ValType>),
> {
    types.map_values(|t: FuncType| t@)
}

/// A registry interning function signatures to dense shared indices.
#[derive(Debug)]
pub struct SignatureRegistry {
    /// The interned signatures; the index of a signature is its shared index.
    pub types: Vec<FuncType>,
}

impl SignatureRegistry {
    /// Well-formedness: no signature is interned twice.
    pub open spec fn wf(&self) -> bool {
        forall|i: int, j: int|
            0 <= i < j < self.types@.len() ==> (#[trigger] self.types@[i])@ != (
            #[trigger] self.types@[j])@
    }

    /// Creates an empty registry.
    pub fn new() -> (r: SignatureRegistry)
        ensures
            r.wf(),
            r.types@.len() == 0,
    {
        SignatureRegistry { types: Vec::new() }
    }

    /// Returns the number of interned signatures.
    pub fn len(&self) -> (r: usize)
        ensures
            r == self.types@.len(),
    {
        self.types.len()
    }

    /// Looks up the shared index of a signature.
    pub fn lookup(&self, ty: &FuncType) -> (r: Option<usize>)
        ensures
            match r {
                Some(i) => spec_find_sig(self.types@, ty@) == Some(i as int),
                None => spec_find_sig(self.types@, ty@) is None,
            },
    {
        let n = self.types.len();
        let mut i: usize = 0;
        while i < n
            invariant
                n == self.types@.len(),
                i <= n,
                forall|j: int| 0 <= j < i ==> (#[trigger] self.types@[j])@ != ty@,
            decreases n - i,
        {
            if self.types[i].same_as(ty) {
                proof {
                    lemma_find_sig_prefix(self.types@, ty@, i as int);
                }
                return Some(i);
            }
            i += 1;
        }
        proof {
            lemma_find_sig_none(self.types@, ty@, n as int);
        }
        None
    }

    /// Interns a signature, returning its shared index.  Equal signatures
    /// always receive the same index.
    pub fn register(&mut self, ty: &FuncType) -> (idx: usize)
        requires
            old(self).wf(),
        ensures
            final(self).wf(),
            idx < final(self).types@.len(),
            final(self).types@[idx as int]@ == ty@,
            spec_find_sig(final(self).types@, ty@) == Some(idx as int),
            spec_find_sig(old(self).types@, ty@) matches Some(i) ==> *final(self) == *old(self)
                && idx == i,
            spec_find_sig(old(self).types@, ty@) is None ==> spec_sig_views(final(self).types@)
                == spec_sig_views(old(self).types@).push(ty@),
            // Interned indices are stable: registering never moves an
            // already-interned signature.
            forall|v: (Seq<crate::types::ValType>, Seq<crate::types::ValType>)|
                (#[trigger] spec_find_sig(old(self).types@, v)) matches Some(i) ==> spec_find_sig(
                    final(self).types@,
                    v,
                ) == Some(i),
    {
        match self.lookup(ty) {
            Some(i) => {
                proof {
                    lemma_find_sig_found(self.types@, ty@);
                }
                i
            }
            None => {
                let idx = self.types.len();
                let copy = FuncType::new(clone_val_types(&ty.params), clone_val_types(&ty.results));
                self.types.push(copy);
                proof {
                    assert(forall|j: int|
                        0 <= j < old(self).types@.len() ==> (#[trigger] old(self).types@[j])@
                            != ty@) by {
                        lemma_find_sig_none_means_absent(old(self).types@, ty@);
                    }
                    assert(final(self).types@[idx as int]@ == ty@);
                    lemma_find_sig_prefix(final(self).types@, ty@, idx as int);
                    assert(spec_sig_views(final(self).types@) =~= spec_sig_views(
                        old(self).types@,
                    ).push(ty@));
                    assert forall|v: (Seq<crate::types::ValType>, Seq<crate::types::ValType>)|
                        (#[trigger] spec_find_sig(old(self).types@, v)) is Some implies
                        spec_find_sig(final(self).types@, v) == spec_find_sig(
                        old(self).types@,
                        v,
                    ) by {
                        lemma_find_sig_found(old(self).types@, v);
                        lemma_intern_stable(
                            old(self).types@,
                            FuncType {
                                params: final(self).types@.last().params,
                                results: final(self).types@.last().results,
                            },
                            v,
                        );
                        assert(final(self).types@ =~= old(self).types@.push(
                            final(self).types@.last(),
                        ));
                    }
                }
                idx
            }
        }
    }
}

/// Copies a list of value types.
pub fn clone_val_types(v: &Vec<crate::types::ValType>) -> (r: Vec<crate::types::ValType>)
    ensures
        r@ == v@,
{
    let n = v.len();
    let mut out: Vec<crate::types::ValType> = Vec::new();
    let mut i: usize = 0;
    while i < n
        invariant
            n == v@.len(),
            i <= n,
            out@ == v@.subrange(0, i as int),
        decreases n - i,
    {
        out.push(v[i]);
        proof {
            assert(v@.subrange(0, i + 1 as int) =~= v@.subrange(0, i as int).push(v@[i as int]));
        }
        i += 1;
    }
    proof {
        assert(v@.subrange(0, n as int) =~= v@);
    }
    out
}

/// If every index below `i` differs and index `i` matches, `i` is the first
/// match.
proof fn lemma_find_sig_prefix(
    types: Seq<FuncType>,
    v: (Seq<crate::types::ValType>, Seq<crate::types::ValType>),
    i: int,
)
    requires
        0 <= i < types.len(),
        forall|j: int| 0 <= j < i ==> (#[trigger] types[j])@ != v,
        types[i]@ == v,
    ensures
        spec_find_sig(types, v) == Some(i),
    decreases i,
{
    if i == 0 {
    } else {
        lemma_find_sig_prefix(types.drop_first(), v, i - 1);
    }
}

/// A found index matches.
proof fn lemma_find_sig_found(
    types: Seq<FuncType>,
    v: (Seq<crate::types::ValType>, Seq<crate::types::ValType>),
)
    ensures
        spec_find_sig(types, v) matches Some(i) ==> 0 <= i < types.len() && types[i]@ == v,
    decreases types.len(),
{
    if types.len() > 0 && types[0]@ != v {
        lemma_find_sig_found(types.drop_first(), v);
    }
}

/// If no index matches, nothing is found.
proof fn lemma_find_sig_none(
    types: Seq<FuncType>,
    v: (Seq<crate::types::ValType>, Seq<crate::types::ValType>),
    n: int,
)
    requires
        n == types.len(),
        forall|j: int| 0 <= j < n ==> (#[trigger] types[j])@ != v,
    ensures
        spec_find_sig(types, v) is None,
    decreases n,
{
    if n > 0 {
        lemma_find_sig_none(types.drop_first(), v, n - 1);
    }
}

/// If nothing is found, no index matches.
proof fn lemma_find_sig_none_means_absent(
    types: Seq<FuncType>,
    v: (Seq<crate::types::ValType>, Seq<crate::types::ValType>),
)
    requires
        spec_find_sig(types, v) is None,
    ensures
        forall|j: int| 0 <= j < types.len() ==> (#[trigger] types[j])@ != v,
    decreases types.len(),
{
    if types.len() > 0 {
        if types[0]@ == v {
        } else {
            lemma_find_sig_none_means_absent(types.drop_first(), v);
            assert(forall|j: int|
                1 <= j < types.len() ==> (#[trigger] types[j])@ == types.drop_first()[j - 1]@);
        }
    }
}

/// Interning an already-interned signature returns the same index: interned
/// indices are stable, so signature indices shared across modules agree.
pub proof fn lemma_intern_stable(
    types: Seq<FuncType>,
    ty: FuncType,
    v: (Seq<crate::types::ValType>, Seq<crate::types::ValType>),
)
    requires
        spec_find_sig(types, v) is Some,
        ty@ != v,
    ensures
        spec_find_sig(types.push(ty), v) == spec_find_sig(types, v),
    decreases types.len(),
{
    if types.len() > 0 {
        if types[0]@ == v {
            assert(types.push(ty)[0]@ == v);
        } else {
            lemma_intern_stable(types.drop_first(), ty, v);
            assert(types.push(ty).drop_first() =~= types.drop_first().push(ty));
        }
    }
}

} // verus!
