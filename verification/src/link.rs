//! Linking: patching call sites and libcall references in place.
//!
//! The code generator emits each relocation as eight zero bytes; after the
//! object is copied into code memory and before it is published, every
//! relocation site is overwritten with the little-endian address of its
//! resolved target plus the addend.  Unlinking writes the zeros back, which
//! restores the position-independent image byte for byte — the step that
//! makes a loaded module serializable again.

use vstd::prelude::*;

verus! {

/// A runtime helper a compiled function may call.
#[derive(Debug, Clone, Copy, PartialEq, Eq, Structural)]
pub enum LibCall {
    /// `ceil` on a 32 bit float.
    CeilF32,
    /// `ceil` on a 64 bit float.
    CeilF64,
    /// `floor` on a 32 bit float.
    FloorF32,
    /// `floor` on a 64 bit float.
    FloorF64,
    /// `trunc` on a 32 bit float.
    TruncF32,
    /// `trunc` on a 64 bit float.
    TruncF64,
    /// The memory move helper.
    Memmove,
    /// The allocation helper for reference-counted host data.
    GcAlloc,
}

/// The address of the runtime's registered helper for `lc`.
///
/// The helpers live at fixed, distinct addresses outside any code span the
/// allocator hands out; the exact values model where the runtime placed
/// them.
pub open spec fn spec_libcall_address(lc: LibCall) -> u64 {
    match lc {
        LibCall::CeilF32 => 0x100,
        LibCall::CeilF64 => 0x110,
        LibCall::FloorF32 => 0x120,
        LibCall::FloorF64 => 0x130,
        LibCall::TruncF32 => 0x140,
        LibCall::TruncF64 => 0x150,
        LibCall::Memmove => 0x160,
        LibCall::GcAlloc => 0x170,
    }
}

/// Returns the address of the runtime's registered helper for `lc`.
pub fn libcall_address(lc: &LibCall) -> (r: u64)
    ensures
        r == spec_libcall_address(*lc),
{
    match lc {
        LibCall::CeilF32 => 0x100,
        LibCall::CeilF64 => 0x110,
        LibCall::FloorF32 => 0x120,
        LibCall::FloorF64 => 0x130,
        LibCall::TruncF32 => 0x140,
        LibCall::TruncF64 => 0x150,
        LibCall::Memmove => 0x160,
        LibCall::GcAlloc => 0x170,
    }
}

/// What a relocation refers to.
#[derive(Debug, Clone, Copy, PartialEq, Eq, Structural)]
pub enum RelocationTarget {
    /// Another function defined in the same module, by defined-function
    /// index.
    UserFunc(u32),
    /// A runtime helper.
    LibCall(LibCall),
    /// A jump table of the same function.  Trampolines must never produce
    /// these; see the trampoline synthesizer.
    JumpTable(u32),
}

/// A deferred address patch: eight bytes at `offset` within the object
/// receive the resolved target address plus `addend`.
#[derive(Debug, Clone, Copy, PartialEq, Eq, Structural)]
pub struct Relocation {
    /// The byte offset of the patch site within the object.
    pub offset: u64,
    /// What the patch site refers to.
    pub target: RelocationTarget,
    /// The addend folded into the patched address.
    pub addend: i64,
}

/// Byte `k` of the little-endian encoding of `v`.
pub open spec fn spec_le64_byte(v: u64, k: int) -> u8 {
    (v >> (8 * k)) as u8
}

/// Whether byte index `k` lies in the patch site of `r`.
pub open spec fn spec_in_site(r: Relocation, k: int) -> bool {
    r.offset <= k < r.offset + 8
}

/// The resolved address for a relocation: the defined function's published
/// address or the registered helper, plus the addend, wrapping as the
/// 64 bit patch does.
pub open spec fn spec_reloc_value(r: Relocation, func_addrs: Seq<u64>) -> u64 {
    match r.target {
        RelocationTarget::UserFunc(f) => vstd::wrapping::u64_specs::wrapping_add_signed(
            func_addrs[f as int],
            r.addend,
        ),
        RelocationTarget::LibCall(lc) => vstd::wrapping::u64_specs::wrapping_add_signed(
            spec_libcall_address(lc),
            r.addend,
        ),
        RelocationTarget::JumpTable(_) => 0,
    }
}

/// Well-formedness of a relocation list against an object of `obj_len`
/// bytes and a module with `n_funcs` defined functions: each site lies
/// within the object, sites do not overlap, and each target resolves.
pub open spec fn spec_relocs_wf(relocs: Seq<Relocation>, obj_len: int, n_funcs: int) -> bool {
    &&& forall|i: int|
        0 <= i < relocs.len() ==> (#[trigger] relocs[i]).offset + 8 <= obj_len
    &&& forall|i: int, j: int|
        0 <= i < j < relocs.len() ==> ((#[trigger] relocs[i]).offset + 8 <= (
        #[trigger] relocs[j]).offset || relocs[j].offset + 8 <= relocs[i].offset)
    &&& forall|i: int|
        0 <= i < relocs.len() ==> match (#[trigger] relocs[i]).target {
            RelocationTarget::UserFunc(f) => (f as int) < n_funcs,
            RelocationTarget::LibCall(_) => true,
            RelocationTarget::JumpTable(_) => false,
        }
}

/// Writes the little-endian encoding of `v` at `off`.
fn write_le64(obj: &mut Vec<u8>, off: usize, v: u64)
    requires
        off + 8 <= old(obj).len(),
    ensures
        final(obj)@.len() == old(obj)@.len(),
        forall|k: int|
            off <= k < off + 8 ==> final(obj)@[k] == spec_le64_byte(v, k - off),
        forall|k: int|
            0 <= k < old(obj)@.len() && !(off <= k < off + 8) ==> final(obj)@[k] == old(obj)@[k],
{
    obj[off] = #[verifier::truncate] (v as u8);
    obj[off + 1] = #[verifier::truncate] ((v >> 8) as u8);
    obj[off + 2] = #[verifier::truncate] ((v >> 16) as u8);
    obj[off + 3] = #[verifier::truncate] ((v >> 24) as u8);
    obj[off + 4] = #[verifier::truncate] ((v >> 32) as u8);
    obj[off + 5] = #[verifier::truncate] ((v >> 40) as u8);
    obj[off + 6] = #[verifier::truncate] ((v >> 48) as u8);
    obj[off + 7] = #[verifier::truncate] ((v >> 56) as u8);
    proof {
        assert(spec_le64_byte(v, 0) == v as u8) by (bit_vector);
    }
}

/// The byte the linked object holds at `k`: the patched byte when `k` lies
/// in some site, the original byte otherwise.
pub open spec fn spec_linked_byte(
    orig: Seq<u8>,
    relocs: Seq<Relocation>,
    func_addrs: Seq<u64>,
    k: int,
) -> u8 {
    if exists|i: int| 0 <= i < relocs.len() && spec_in_site(#[trigger] relocs[i], k) {
        let i = choose|i: int| 0 <= i < relocs.len() && spec_in_site(#[trigger] relocs[i], k);
        spec_le64_byte(spec_reloc_value(relocs[i], func_addrs), k - relocs[i].offset)
    } else {
        orig[k]
    }
}

/// Resolves one relocation's value.
fn reloc_value(r: &Relocation, func_addrs: &Vec<u64>) -> (v: u64)
    requires
        match r.target {
            RelocationTarget::UserFunc(f) => (f as int) < func_addrs@.len(),
            RelocationTarget::LibCall(_) => true,
            RelocationTarget::JumpTable(_) => false,
        },
    ensures
        v == spec_reloc_value(*r, func_addrs@),
{
    match &r.target {
        RelocationTarget::UserFunc(f) => func_addrs[*f as usize].wrapping_add_signed(r.addend),
        RelocationTarget::LibCall(lc) => libcall_address(lc).wrapping_add_signed(r.addend),
        RelocationTarget::JumpTable(_) => 0,
    }
}

/// Patches every relocation site of the object with its resolved address.
/// Must run after the bytes are in code memory and before `publish`.
pub fn link_module(obj: &mut Vec<u8>, relocs: &Vec<Relocation>, func_addrs: &Vec<u64>)
    requires
        spec_relocs_wf(relocs@, old(obj).len() as int, func_addrs@.len() as int),
    ensures
        final(obj)@.len() == old(obj)@.len(),
        forall|k: int|
            0 <= k < old(obj)@.len() ==> final(obj)@[k] == spec_linked_byte(
                old(obj)@,
                relocs@,
                func_addrs@,
                k,
            ),
{
    let n = relocs.len();
    let mut i: usize = 0;
    while i < n
        invariant
            n == relocs@.len(),
            i <= n,
            spec_relocs_wf(relocs@, old(obj).len() as int, func_addrs@.len() as int),
            obj@.len() == old(obj)@.len(),
            forall|k: int|
                0 <= k < old(obj)@.len() ==> if exists|j: int|
                    0 <= j < i && spec_in_site(#[trigger] relocs@[j], k) {
                    obj@[k] == spec_linked_byte(old(obj)@, relocs@, func_addrs@, k)
                } else {
                    obj@[k] == old(obj)@[k]
                },
        decreases n - i,
    {
        let r = &relocs[i];
        let v = reloc_value(r, func_addrs);
        write_le64(obj, r.offset as usize, v);
        proof {
            assert forall|k: int| 0 <= k < old(obj)@.len() implies (if exists|j: int|
                0 <= j < i + 1 && spec_in_site(#[trigger] relocs@[j], k) {
                obj@[k] == spec_linked_byte(old(obj)@, relocs@, func_addrs@, k)
            } else {
                obj@[k] == old(obj)@[k]
            }) by {
                if exists|j: int| 0 <= j < i + 1 && spec_in_site(#[trigger] relocs@[j], k) {
                    let j = choose|j: int|
                        0 <= j < i + 1 && spec_in_site(#[trigger] relocs@[j], k);
                    if spec_in_site(relocs@[i as int], k) {
                        let w = choose|w: int|
                            0 <= w < relocs@.len() && spec_in_site(#[trigger] relocs@[w], k);
                        assert(w == i);
                        assert(obj@[k] == spec_le64_byte(
                            spec_reloc_value(relocs@[i as int], func_addrs@),
                            k - relocs@[i as int].offset,
                        ));
                    } else {
                        assert(j < i);
                        assert(spec_in_site(relocs@[j], k));
                    }
                }
            }
        }
        i += 1;
    }
    proof {
        assert forall|k: int| 0 <= k < old(obj)@.len() implies final(obj)@[k] == spec_linked_byte(
            old(obj)@,
            relocs@,
            func_addrs@,
            k,
        ) by {
            if exists|j: int| 0 <= j < relocs@.len() && spec_in_site(#[trigger] relocs@[j], k) {
                let j = choose|j: int|
                    0 <= j < relocs@.len() && spec_in_site(#[trigger] relocs@[j], k);
                assert(j < n);
            }
        }
    }
}

/// The byte the unlinked object holds at `k`: zero at every patch site, the
/// linked byte otherwise.
pub open spec fn spec_unlinked_byte(linked: Seq<u8>, relocs: Seq<Relocation>, k: int) -> u8 {
    if exists|i: int| 0 <= i < relocs.len() && spec_in_site(#[trigger] relocs[i], k) {
        0u8
    } else {
        linked[k]
    }
}

/// Writes zeros back over every relocation site, restoring the
/// position-independent image.
pub fn unlink_module(obj: &mut Vec<u8>, relocs: &Vec<Relocation>)
    requires
        forall|i: int| 0 <= i < relocs@.len() ==> (#[trigger] relocs@[i]).offset + 8 <= old(obj).len(),
    ensures
        final(obj)@.len() == old(obj)@.len(),
        forall|k: int|
            0 <= k < old(obj)@.len() ==> final(obj)@[k] == spec_unlinked_byte(
                old(obj)@,
                relocs@,
                k,
            ),
{
    let n = relocs.len();
    let mut i: usize = 0;
    while i < n
        invariant
            n == relocs@.len(),
            i <= n,
            forall|j: int| 0 <= j < n ==> (#[trigger] relocs@[j]).offset + 8 <= old(obj).len(),
            obj@.len() == old(obj)@.len(),
            forall|k: int|
                0 <= k < old(obj)@.len() ==> if exists|j: int|
                    0 <= j < i && spec_in_site(#[trigger] relocs@[j], k) {
                    obj@[k] == 0u8
                } else {
                    obj@[k] == old(obj)@[k]
                },
        decreases n - i,
    {
        let r = &relocs[i];
        write_le64(obj, r.offset as usize, 0);
        proof {
            assert(spec_le64_byte(0u64, 0) == 0u8) by (bit_vector);
            assert forall|k: int| 0 <= k < 8 implies spec_le64_byte(0u64, k) == 0u8 by {
                let kk = k as u64;
                assert(0u64 >> (8 * kk) == 0u64) by (bit_vector);
            }
        }
        i += 1;
    }
}

/// Unlinking a linked object restores the original image, provided the code
/// generator emitted zeros at every relocation site: the byte-level
/// round-trip behind reloadable compilation artifacts.
pub proof fn lemma_link_unlink_roundtrip(
    orig: Seq<u8>,
    linked: Seq<u8>,
    unlinked: Seq<u8>,
    relocs: Seq<Relocation>,
    func_addrs: Seq<u64>,
)
    requires
        linked.len() == orig.len(),
        unlinked.len() == orig.len(),
        forall|k: int|
            0 <= k < orig.len() ==> linked[k] == spec_linked_byte(orig, relocs, func_addrs, k),
        forall|k: int|
            0 <= k < orig.len() ==> unlinked[k] == spec_unlinked_byte(linked, relocs, k),
        forall|i: int, k: int|
            0 <= i < relocs.len() && #[trigger] spec_in_site(relocs[i], k) && 0 <= k < orig.len()
                ==> orig[k] == 0u8,
    ensures
        unlinked == orig,
{
    assert forall|k: int| 0 <= k < orig.len() implies unlinked[k] == orig[k] by {
        if exists|i: int| 0 <= i < relocs.len() && spec_in_site(#[trigger] relocs[i], k) {
            let i = choose|i: int| 0 <= i < relocs.len() && spec_in_site(#[trigger] relocs[i], k);
            assert(orig[k] == 0u8);
        }
    }
    assert(unlinked =~= orig);
}

} // verus!
