//! The dispatch protocol: from an object handle and a slot path to the
//! call made through the table.
//!
//! A virtual call proceeds exactly as a foreign compiler implements it:
//! load the table pointer from the object, walk the named base sections of
//! the table down to the slot, read the function address stored there, and
//! call it with the object's address as the implicit first argument,
//! followed by the caller's arguments unchanged.  Resolution walks the path
//! as declared: each segment but the last names a base section of the
//! current table, the last names a slot.  The jump itself — transferring
//! control to a foreign address under its convention — is the machine's
//! step; the protocol's own obligation, proved here, is that exactly one
//! slot is selected, that it is the one the path declares, and that the
//! frame handed to it carries the handle's address and the caller's
//! arguments unmodified, the callee's return value coming back untouched.

use vstd::prelude::*;

use crate::convention::Target;
use crate::object::VtObject;
use crate::table::BaseDesc;
use crate::table::BaseInst;
use crate::table::SlotSig;
use crate::table::SlotVal;
use crate::table::TableDesc;
use crate::table::TableInst;
use crate::table::inst_matches;
use crate::table::slot_matches;
use crate::vtable_ptr::TableStore;
use crate::vtable_ptr::spec_deref;

verus! {

/// The first slot of the given name, in declared order.
pub open spec fn find_slot(slots: Seq<SlotVal>, name: u64) -> Option<SlotVal>
    decreases slots.len(),
{
    if slots.len() == 0 {
        None
    } else if slots[0].name == name {
        Some(slots[0])
    } else {
        find_slot(slots.drop_first(), name)
    }
}

/// The first base section of the given name, in declared order.
pub open spec fn find_base(bases: Seq<BaseInst>, name: u64) -> Option<TableInst>
    decreases bases.len(),
{
    if bases.len() == 0 {
        None
    } else if bases[0].name == name {
        Some(bases[0].inst)
    } else {
        find_base(bases.drop_first(), name)
    }
}

/// The slot a path resolves to within a table: every segment but the last
/// names a base section to walk into, the last names the slot itself.  An
/// empty path, a missing section, or a missing slot resolves to nothing.
pub open spec fn resolve_in(inst: TableInst, path: Seq<u64>) -> Option<SlotVal>
    decreases path.len(),
{
    if path.len() == 0 {
        None
    } else if path.len() == 1 {
        find_slot(inst.slots@, path[0])
    } else {
        match find_base(inst.bases@, path[0]) {
            Some(b) => resolve_in(b, path.drop_first()),
            None => None,
        }
    }
}

/// Returns the first slot of the given name, in declared order.
fn find_slot_in(slots: &Vec<SlotVal>, name: u64) -> (r: Option<SlotVal>)
    ensures
        r == find_slot(slots@, name),
{
    let mut j: usize = 0;
    proof {
        assert(slots@.skip(0) =~= slots@);
    }
    while j < slots.len()
        invariant
            j <= slots@.len(),
            find_slot(slots@, name) == find_slot(slots@.skip(j as int), name),
        decreases slots@.len() - j,
    {
        if slots[j].name == name {
            proof {
                assert(slots@.skip(j as int)[0] == slots@[j as int]);
            }
            return Some(slots[j]);
        }
        proof {
            assert(slots@.skip(j as int).drop_first() =~= slots@.skip(j as int + 1));
        }
        j = j + 1;
    }
    proof {
        assert(slots@.skip(slots@.len() as int).len() == 0);
    }
    None
}

/// Returns the first base section of the given name, in declared order.
fn find_base_in<'a>(bases: &'a Vec<BaseInst>, name: u64) -> (r: Option<&'a TableInst>)
    ensures
        r matches Some(t) ==> find_base(bases@, name) == Some(*t),
        r is None ==> find_base(bases@, name) is None,
{
    let mut j: usize = 0;
    proof {
        assert(bases@.skip(0) =~= bases@);
    }
    while j < bases.len()
        invariant
            j <= bases@.len(),
            find_base(bases@, name) == find_base(bases@.skip(j as int), name),
        decreases bases@.len() - j,
    {
        if bases[j].name == name {
            proof {
                assert(bases@.skip(j as int)[0] == bases@[j as int]);
            }
            return Some(&bases[j].inst);
        }
        proof {
            assert(bases@.skip(j as int).drop_first() =~= bases@.skip(j as int + 1));
        }
        j = j + 1;
    }
    proof {
        assert(bases@.skip(bases@.len() as int).len() == 0);
    }
    None
}

impl TableInst {
    /// Resolves a slot path within this table, walking the declared base
    /// sections segment by segment and looking the last segment up among
    /// the slots of the section reached.
    pub fn resolve(&self, path: &Vec<u64>) -> (r: Option<SlotVal>)
        ensures
            r == resolve_in(*self, path@),
    {
        if path.len() == 0 {
            return None;
        }
        let mut cur: &TableInst = self;
        let mut i: usize = 0;
        let last = path.len() - 1;
        proof {
            assert(path@.skip(0) =~= path@);
        }
        while i < last
            invariant
                last == path@.len() - 1,
                i <= last,
                resolve_in(*self, path@) == resolve_in(*cur, path@.skip(i as int)),
            decreases last - i,
        {
            match find_base_in(&cur.bases, path[i]) {
                Some(b) => {
                    cur = b;
                },
                None => {
                    proof {
                        assert(path@.skip(i as int)[0] == path@[i as int]);
                        assert(path@.skip(i as int).len() >= 2);
                    }
                    return None;
                },
            }
            proof {
                assert(path@.skip(i as int)[0] == path@[i as int]);
                assert(path@.skip(i as int).len() >= 2);
                assert(path@.skip(i as int).drop_first() =~= path@.skip(i as int + 1));
            }
            i = i + 1;
        }
        proof {
            assert(path@.skip(i as int).len() == 1);
            assert(path@.skip(i as int)[0] == path@[i as int]);
        }
        find_slot_in(&cur.slots, path[i])
    }
}

/// One prepared virtual call: the slot selected by resolution, and the
/// argument frame the callee receives — the handle's object address first,
/// then the caller's arguments unchanged.
pub struct Invocation {
    /// The selected slot: the function address to jump to and the
    /// convention to call it under.
    pub slot: SlotVal,
    /// The full argument frame, object address first.
    pub args: Vec<u64>,
}

/// The argument frame a dispatched call hands its callee: the object
/// address prepended to the caller's arguments.
pub open spec fn spec_frame_args(object_address: u64, args: Seq<u64>) -> Seq<u64> {
    seq![object_address] + args
}

/// The slot a dispatch through a handle selects: the handle's table is
/// loaded from the store and the path resolved within it.
pub open spec fn spec_dispatch_slot(
    store: TableStore<TableInst>,
    obj: VtObject<TableInst>,
    path: Seq<u64>,
) -> Option<SlotVal> {
    resolve_in(spec_deref(obj.table_ptr, store), path)
}

/// Prepares the virtual call a handle and a slot path describe: loads the
/// table the handle points to, resolves the path to a slot, and builds the
/// argument frame, the handle's object address first and the caller's
/// arguments after it, unchanged and in order.  Returns nothing when the
/// path names no slot of the table.
pub fn dispatch(
    store: &TableStore<TableInst>,
    obj: &VtObject<TableInst>,
    path: &Vec<u64>,
    args: &Vec<u64>,
) -> (r: Option<Invocation>)
    requires
        obj.table_ptr.index < store@.len(),
    ensures
        r matches Some(inv) ==> {
            &&& spec_dispatch_slot(*store, *obj, path@) == Some(inv.slot)
            &&& inv.args@ == spec_frame_args(obj.address, args@)
        },
        r is Some <==> spec_dispatch_slot(*store, *obj, path@) is Some,
{
    let table = obj.table(store);
    match table.resolve(path) {
        None => None,
        Some(slot) => {
            let mut frame: Vec<u64> = Vec::new();
            frame.push(obj.as_ptr());
            let mut k: usize = 0;
            while k < args.len()
                invariant
                    k <= args@.len(),
                    frame@ == seq![obj.address] + args@.subrange(0, k as int),
                decreases args@.len() - k,
            {
                frame.push(args[k]);
                k = k + 1;
                proof {
                    assert(args@.subrange(0, k as int) == args@.subrange(0, k as int - 1).push(
                        args@[k - 1],
                    ));
                }
            }
            proof {
                assert(args@.subrange(0, args@.len() as int) == args@);
            }
            Some(Invocation { slot, args: frame })
        },
    }
}

/// Performs one virtual call: prepares the invocation the handle and path
/// describe and hands it to `invoke`, which stands for the machine's jump
/// to the slot's address.  The contract is the dispatch guarantee: exactly
/// one slot is called, it is the one the path resolves to, the frame it
/// receives is the object address followed by the caller's arguments
/// unmodified, and the callee's return value is returned unchanged.
pub fn dispatch_call<F: FnOnce(Invocation) -> u64>(
    store: &TableStore<TableInst>,
    obj: &VtObject<TableInst>,
    path: &Vec<u64>,
    args: &Vec<u64>,
    invoke: F,
) -> (r: u64)
    requires
        obj.table_ptr.index < store@.len(),
        spec_dispatch_slot(*store, *obj, path@) is Some,
        forall|inv: Invocation|
            spec_dispatch_slot(*store, *obj, path@) == Some(inv.slot) && inv.args@
                == spec_frame_args(obj.address, args@) ==> call_requires(invoke, (inv,)),
    ensures
        exists|inv: Invocation|
            {
                &&& spec_dispatch_slot(*store, *obj, path@) == Some(#[trigger] inv.slot)
                &&& inv.args@ == spec_frame_args(obj.address, args@)
                &&& call_ensures(invoke, (inv,), r)
            },
{
    let prepared = dispatch(store, obj, path, args);
    let inv = prepared.unwrap();
    let ghost witness = inv;
    let r = invoke(inv);
    proof {
        assert(spec_dispatch_slot(*store, *obj, path@) == Some(witness.slot) && witness.args@
            == spec_frame_args(obj.address, args@) && call_ensures(invoke, (witness,), r));
    }
    r
}

/// Law: a nested path is resolved inside the base section its first
/// segment names, and nowhere else — what the remaining segments find
/// there is the result, whatever slots other sections hold under the same
/// leaf names.
pub proof fn lemma_nested_path_scoped(inst: TableInst, path: Seq<u64>)
    requires
        path.len() >= 2,
    ensures
        resolve_in(inst, path) == match find_base(inst.bases@, path[0]) {
            Some(b) => resolve_in(b, path.drop_first()),
            None => None,
        },
{
}

/// Law: when base sections bear distinct names, looking a name up finds
/// exactly the section declared under it.
pub proof fn lemma_find_base_is_named_section(bases: Seq<BaseInst>, name: u64, i: int)
    requires
        0 <= i < bases.len(),
        bases[i].name == name,
        forall|p: int, q: int| 0 <= p < q < bases.len() ==> bases[p].name != bases[q].name,
    ensures
        find_base(bases, name) == Some(bases[i].inst),
    decreases bases.len(),
{
    if bases[0].name == name {
        assert(i == 0);
    } else {
        assert(i >= 1);
        lemma_find_base_is_named_section(bases.drop_first(), name, i - 1);
        assert(bases.drop_first()[i - 1] == bases[i]);
    }
}

/// Law: with distinctly named base sections, a nested path resolves to the
/// slot reached by walking the section its first segment declares — not to
/// a slot of any other section that shares the leaf name.
pub proof fn lemma_nested_resolution(inst: TableInst, path: Seq<u64>, i: int)
    requires
        path.len() >= 2,
        0 <= i < inst.bases@.len(),
        inst.bases@[i].name == path[0],
        forall|p: int, q: int|
            0 <= p < q < inst.bases@.len() ==> inst.bases@[p].name != inst.bases@[q].name,
    ensures
        resolve_in(inst, path) == resolve_in(inst.bases@[i].inst, path.drop_first()),
{
    lemma_find_base_is_named_section(inst.bases@, path[0], i);
}

/// The first declared signature of the given name, in declared order.
pub open spec fn find_sig(slots: Seq<SlotSig>, name: u64) -> Option<SlotSig>
    decreases slots.len(),
{
    if slots.len() == 0 {
        None
    } else if slots[0].name == name {
        Some(slots[0])
    } else {
        find_sig(slots.drop_first(), name)
    }
}

/// The first declared base section of the given name, in declared order.
pub open spec fn find_base_sig(bases: Seq<BaseDesc>, name: u64) -> Option<TableDesc>
    decreases bases.len(),
{
    if bases.len() == 0 {
        None
    } else if bases[0].name == name {
        Some(bases[0].desc)
    } else {
        find_base_sig(bases.drop_first(), name)
    }
}

/// The declared signature a path resolves to within a descriptor, walking
/// base sections exactly as [`resolve_in`] walks a populated table.
pub open spec fn resolve_sig(desc: TableDesc, path: Seq<u64>) -> Option<SlotSig>
    decreases path.len(),
{
    if path.len() == 0 {
        None
    } else if path.len() == 1 {
        find_sig(desc.slots@, path[0])
    } else {
        match find_base_sig(desc.bases@, path[0]) {
            Some(b) => resolve_sig(b, path.drop_first()),
            None => None,
        }
    }
}

/// Returns the first declared signature of the given name.
fn find_sig_in<'a>(slots: &'a Vec<SlotSig>, name: u64) -> (r: Option<&'a SlotSig>)
    ensures
        r matches Some(s) ==> find_sig(slots@, name) == Some(*s),
        r is None ==> find_sig(slots@, name) is None,
{
    let mut j: usize = 0;
    proof {
        assert(slots@.skip(0) =~= slots@);
    }
    while j < slots.len()
        invariant
            j <= slots@.len(),
            find_sig(slots@, name) == find_sig(slots@.skip(j as int), name),
        decreases slots@.len() - j,
    {
        if slots[j].name == name {
            proof {
                assert(slots@.skip(j as int)[0] == slots@[j as int]);
            }
            return Some(&slots[j]);
        }
        proof {
            assert(slots@.skip(j as int).drop_first() =~= slots@.skip(j as int + 1));
        }
        j = j + 1;
    }
    proof {
        assert(slots@.skip(slots@.len() as int).len() == 0);
    }
    None
}

/// Returns the first declared base section of the given name.
fn find_base_sig_in<'a>(bases: &'a Vec<BaseDesc>, name: u64) -> (r: Option<&'a TableDesc>)
    ensures
        r matches Some(d) ==> find_base_sig(bases@, name) == Some(*d),
        r is None ==> find_base_sig(bases@, name) is None,
{
    let mut j: usize = 0;
    proof {
        assert(bases@.skip(0) =~= bases@);
    }
    while j < bases.len()
        invariant
            j <= bases@.len(),
            find_base_sig(bases@, name) == find_base_sig(bases@.skip(j as int), name),
        decreases bases@.len() - j,
    {
        if bases[j].name == name {
            proof {
                assert(bases@.skip(j as int)[0] == bases@[j as int]);
            }
            return Some(&bases[j].desc);
        }
        proof {
            assert(bases@.skip(j as int).drop_first() =~= bases@.skip(j as int + 1));
        }
        j = j + 1;
    }
    proof {
        assert(bases@.skip(bases@.len() as int).len() == 0);
    }
    None
}

impl TableDesc {
    /// Resolves a slot path within this descriptor to the declared
    /// signature it names.  This is the declaration-time lookup a call
    /// site is checked against: the arguments and the return type of a
    /// dispatch must match the signature this returns, with the object
    /// address prepended.
    pub fn resolve<'a>(&'a self, path: &Vec<u64>) -> (r: Option<&'a SlotSig>)
        ensures
            r matches Some(s) ==> resolve_sig(*self, path@) == Some(*s),
            r is None ==> resolve_sig(*self, path@) is None,
    {
        if path.len() == 0 {
            return None;
        }
        let mut cur: &TableDesc = self;
        let mut i: usize = 0;
        let last = path.len() - 1;
        proof {
            assert(path@.skip(0) =~= path@);
        }
        while i < last
            invariant
                last == path@.len() - 1,
                i <= last,
                resolve_sig(*self, path@) == resolve_sig(*cur, path@.skip(i as int)),
            decreases last - i,
        {
            match find_base_sig_in(&cur.bases, path[i]) {
                Some(b) => {
                    cur = b;
                },
                None => {
                    proof {
                        assert(path@.skip(i as int)[0] == path@[i as int]);
                        assert(path@.skip(i as int).len() >= 2);
                    }
                    return None;
                },
            }
            proof {
                assert(path@.skip(i as int)[0] == path@[i as int]);
                assert(path@.skip(i as int).len() >= 2);
                assert(path@.skip(i as int).drop_first() =~= path@.skip(i as int + 1));
            }
            i = i + 1;
        }
        proof {
            assert(path@.skip(i as int).len() == 1);
            assert(path@.skip(i as int)[0] == path@[i as int]);
        }
        find_sig_in(&cur.slots, path[i])
    }
}

proof fn lemma_find_slot_parallel(
    slots: Seq<SlotVal>,
    sigs: Seq<SlotSig>,
    target: Target,
    name: u64,
)
    requires
        slots.len() == sigs.len(),
        forall|i: int| 0 <= i < sigs.len() ==> slot_matches(#[trigger] slots[i], sigs[i], target),
    ensures
        (find_slot(slots, name) is Some) == (find_sig(sigs, name) is Some),
        find_slot(slots, name) matches Some(v) ==> slot_matches(
            v,
            find_sig(sigs, name).unwrap(),
            target,
        ),
    decreases slots.len(),
{
    if slots.len() == 0 {
    } else {
        assert(slot_matches(slots[0], sigs[0], target));
        if slots[0].name == name {
        } else {
            assert forall|i: int|
                0 <= i < sigs.drop_first().len() implies slot_matches(
                #[trigger] slots.drop_first()[i],
                sigs.drop_first()[i],
                target,
            ) by {
                assert(slots.drop_first()[i] == slots[i + 1]);
                assert(slot_matches(slots[i + 1], sigs[i + 1], target));
            }
            lemma_find_slot_parallel(slots.drop_first(), sigs.drop_first(), target, name);
        }
    }
}

proof fn lemma_find_base_parallel(
    bases: Seq<BaseInst>,
    descs: Seq<BaseDesc>,
    target: Target,
    name: u64,
)
    requires
        bases.len() == descs.len(),
        forall|i: int|
            0 <= i < descs.len() ==> (#[trigger] bases[i]).name == descs[i].name && inst_matches(
                bases[i].inst,
                descs[i].desc,
                target,
            ),
    ensures
        (find_base(bases, name) is Some) == (find_base_sig(descs, name) is Some),
        find_base(bases, name) matches Some(b) ==> inst_matches(
            b,
            find_base_sig(descs, name).unwrap(),
            target,
        ),
    decreases bases.len(),
{
    if bases.len() == 0 {
    } else {
        assert(bases[0].name == descs[0].name && inst_matches(bases[0].inst, descs[0].desc, target));
        if bases[0].name == name {
        } else {
            assert forall|i: int|
                0 <= i < descs.drop_first().len() implies (#[trigger] bases.drop_first()[i]).name
                == descs.drop_first()[i].name && inst_matches(
                bases.drop_first()[i].inst,
                descs.drop_first()[i].desc,
                target,
            ) by {
                assert(bases.drop_first()[i] == bases[i + 1]);
                assert(bases[i + 1].name == descs[i + 1].name && inst_matches(
                    bases[i + 1].inst,
                    descs[i + 1].desc,
                    target,
                ));
            }
            lemma_find_base_parallel(bases.drop_first(), descs.drop_first(), target, name);
        }
    }
}

/// Law: through a table that is a value of its descriptor's schema, a path
/// selects a slot exactly when the same path selects a signature in the
/// descriptor, and the selected slot bears the declared name and exactly
/// the convention the selector chooses for that signature's shape on the
/// chosen target.  Every dispatched call is therefore made under the
/// selector's convention for its declared signature.
pub proof fn lemma_dispatch_follows_descriptor(
    inst: TableInst,
    desc: TableDesc,
    target: Target,
    path: Seq<u64>,
)
    requires
        inst_matches(inst, desc, target),
    ensures
        (resolve_in(inst, path) is Some) == (resolve_sig(desc, path) is Some),
        resolve_in(inst, path) matches Some(slot) ==> slot_matches(
            slot,
            resolve_sig(desc, path).unwrap(),
            target,
        ),
    decreases path.len(),
{
    if path.len() == 0 {
    } else if path.len() == 1 {
        lemma_find_slot_parallel(inst.slots@, desc.slots@, target, path[0]);
    } else {
        lemma_find_base_parallel(inst.bases@, desc.bases@, target, path[0]);
        match find_base(inst.bases@, path[0]) {
            Some(b) => {
                lemma_dispatch_follows_descriptor(
                    b,
                    find_base_sig(desc.bases@, path[0]).unwrap(),
                    target,
                    path.drop_first(),
                );
            },
            None => {
            },
        }
    }
}

} // verus!
