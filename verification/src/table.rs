//! Table descriptors and populated table instances.
//!
//! A descriptor is the schema of a foreign table: an ordered list of named
//! base sections (the tables of the declared bases, in base-to-derived
//! order, standing as prefix fields) followed by an ordered list of method
//! slots.  A table instance is a concrete value of that schema: one function
//! address per slot, each recorded together with the calling convention the
//! selector chooses for the slot's shape on the chosen target.  Field names
//! are interned identifiers; the textual schema layer that maps source names
//! to identifiers is outside this crate.

use vstd::prelude::*;

use crate::convention::Convention;
use crate::convention::ConventionKind;
use crate::convention::Target;
use crate::convention::select_convention;
use crate::convention::selected;

verus! {

/// Identifier of a parameter or return type in a slot signature.  Foreign
/// types are opaque here; the only type the dispatch layer itself
/// introduces is the object address passed as every slot's first parameter.
#[derive(Clone, Copy, Debug, PartialEq, Eq, Structural)]
pub enum TypeId {
    /// The address of the object the call is made on.
    Address,
    /// An opaque foreign type, named by an interned identifier.
    Foreign(u64),
    /// No value: the slot returns nothing.
    Unit,
}

/// Schema of one method slot: its name, its declared parameter and return
/// types, and the shape that drives the convention choice.
#[derive(Clone, Debug)]
pub struct SlotSig {
    /// Interned name of the slot.
    pub name: u64,
    /// Declared parameter types, not counting the object address that the
    /// dispatch protocol prepends.
    pub params: Vec<TypeId>,
    /// Declared return type.
    pub ret: TypeId,
    /// Whether the slot takes variable arguments after the declared ones.
    pub variadic: bool,
    /// Whether a foreign exception may propagate out of the slot.
    pub unwinding: bool,
}

/// One named base section of a descriptor: the descriptor of the base
/// table, standing as a prefix field of the derived table.
#[derive(Debug)]
pub struct BaseDesc {
    /// Interned name of the section.
    pub name: u64,
    /// Descriptor of the base table.
    pub desc: TableDesc,
}

/// Schema of a whole table: base sections in declared base-to-derived
/// order, then method slots in declared order.
#[derive(Debug)]
pub struct TableDesc {
    /// Base sections, standing as prefix fields in declared order.
    pub bases: Vec<BaseDesc>,
    /// Method slots, in declared order.
    pub slots: Vec<SlotSig>,
}

/// One populated slot: the name it was declared under, the foreign function
/// address stored in the field, and the convention that address was
/// compiled for.
#[derive(Clone, Copy, Debug)]
pub struct SlotVal {
    /// Interned name of the slot, as declared.
    pub name: u64,
    /// The foreign function address stored in the field.
    pub addr: u64,
    /// The convention the stored address must be called under.
    pub conv: Convention,
}

/// One populated base section of a table instance.
#[derive(Debug)]
pub struct BaseInst {
    /// Interned name of the section, as declared.
    pub name: u64,
    /// The populated base table.
    pub inst: TableInst,
}

/// A populated table: a concrete value of a descriptor's schema, with one
/// function address per slot in declared order.
#[derive(Debug)]
pub struct TableInst {
    /// Populated base sections, in declared order.
    pub bases: Vec<BaseInst>,
    /// Populated slots, in declared order.
    pub slots: Vec<SlotVal>,
}

/// The names of a descriptor's fields, sections first, in declared order.
/// Sections and slots of one table share a single namespace, exactly as the
/// fields of one record do.
pub open spec fn field_names(desc: TableDesc) -> Seq<u64> {
    desc.bases@.map_values(|b: BaseDesc| b.name) + desc.slots@.map_values(|s: SlotSig| s.name)
}

/// Whether a sequence of names has no repetition.
pub open spec fn names_unique(names: Seq<u64>) -> bool {
    forall|i: int, j: int| 0 <= i < j < names.len() ==> names[i] != names[j]
}

/// A well-formed descriptor: at every level, no two fields share a name.
pub open spec fn desc_wf(desc: TableDesc) -> bool
    decreases desc,
{
    &&& names_unique(field_names(desc))
    &&& forall|i: int|
        0 <= i < desc.bases@.len() ==> desc_wf(#[trigger] desc.bases@[i].desc)
}

/// Whether a populated slot is what populating a slot schema on a target
/// yields: same name, and exactly the convention the selector chooses for
/// the schema's shape.
pub open spec fn slot_matches(val: SlotVal, sig: SlotSig, target: Target) -> bool {
    &&& val.name == sig.name
    &&& val.conv == selected(sig.variadic, sig.unwinding, target)
}

/// Whether a table instance is a value of a descriptor's schema on a
/// target: section for section and slot for slot, in declared order, with
/// every slot carrying the convention the selector chooses for it.
pub open spec fn inst_matches(inst: TableInst, desc: TableDesc, target: Target) -> bool
    decreases desc,
{
    &&& inst.bases@.len() == desc.bases@.len()
    &&& forall|i: int|
        0 <= i < desc.bases@.len() ==> (#[trigger] inst.bases@[i]).name == desc.bases@[i].name
            && inst_matches(inst.bases@[i].inst, desc.bases@[i].desc, target)
    &&& inst.slots@.len() == desc.slots@.len()
    &&& forall|i: int|
        0 <= i < desc.slots@.len() ==> slot_matches(
            #[trigger] inst.slots@[i],
            desc.slots@[i],
            target,
        )
}

/// The full signature of a slot as the table field holds it: the object
/// address prepended to the declared parameters.
pub open spec fn spec_full_signature(sig: SlotSig) -> Seq<TypeId> {
    seq![TypeId::Address] + sig.params@
}

impl SlotSig {
    /// Returns the parameter list of the table field generated for this
    /// slot: the object address, then the declared parameters unchanged.
    pub fn full_signature(&self) -> (v: Vec<TypeId>)
        ensures
            v@ == spec_full_signature(*self),
    {
        let mut v: Vec<TypeId> = Vec::new();
        v.push(TypeId::Address);
        let mut i: usize = 0;
        while i < self.params.len()
            invariant
                i <= self.params@.len(),
                v@ == seq![TypeId::Address] + self.params@.subrange(0, i as int),
            decreases self.params@.len() - i,
        {
            v.push(self.params[i]);
            i = i + 1;
            proof {
                assert(self.params@.subrange(0, i as int) == self.params@.subrange(
                    0,
                    i as int - 1,
                ).push(self.params@[i - 1]));
            }
        }
        proof {
            assert(self.params@.subrange(0, self.params@.len() as int) == self.params@);
        }
        v
    }
}

/// Law: the table field generated for a slot takes exactly the slot's
/// declared parameters with the object address prepended — one extra
/// leading parameter, everything else unchanged.
pub proof fn lemma_full_signature_shape(sig: SlotSig)
    ensures
        spec_full_signature(sig).len() == sig.params@.len() + 1,
        spec_full_signature(sig)[0] == TypeId::Address,
        forall|i: int|
            0 <= i < sig.params@.len() ==> spec_full_signature(sig)[i + 1] == sig.params@[i],
{
}

/// Whether a name occurs among the first `upto` entries of `names`.
fn contains_name(names: &Vec<u64>, upto: usize, name: u64) -> (r: bool)
    requires
        upto <= names@.len(),
    ensures
        r == exists|k: int| 0 <= k < upto && names@[k] == name,
{
    let mut k: usize = 0;
    while k < upto
        invariant
            k <= upto <= names@.len(),
            forall|j: int| 0 <= j < k ==> names@[j] != name,
        decreases upto - k,
    {
        if names[k] == name {
            return true;
        }
        k = k + 1;
    }
    false
}

/// Returns whether no two entries of `names` are equal.
pub fn names_all_unique(names: &Vec<u64>) -> (r: bool)
    ensures
        r == names_unique(names@),
{
    let mut i: usize = 0;
    while i < names.len()
        invariant
            i <= names@.len(),
            forall|p: int, q: int| 0 <= p < q < i ==> names@[p] != names@[q],
        decreases names@.len() - i,
    {
        if contains_name(names, i, names[i]) {
            return false;
        }
        i = i + 1;
    }
    true
}

impl TableDesc {
    /// Returns the names of this descriptor's fields, sections first, in
    /// declared order.
    pub fn collect_field_names(&self) -> (v: Vec<u64>)
        ensures
            v@ == field_names(*self),
    {
        let mut v: Vec<u64> = Vec::new();
        let mut i: usize = 0;
        while i < self.bases.len()
            invariant
                i <= self.bases@.len(),
                v@.len() == i,
                forall|k: int| 0 <= k < i ==> v@[k] == self.bases@[k].name,
            decreases self.bases@.len() - i,
        {
            v.push(self.bases[i].name);
            i = i + 1;
        }
        let mut j: usize = 0;
        while j < self.slots.len()
            invariant
                j <= self.slots@.len(),
                v@.len() == self.bases@.len() + j,
                forall|k: int| 0 <= k < self.bases@.len() ==> v@[k] == self.bases@[k].name,
                forall|k: int|
                    0 <= k < j ==> v@[self.bases@.len() + k] == self.slots@[k].name,
            decreases self.slots@.len() - j,
        {
            v.push(self.slots[j].name);
            j = j + 1;
        }
        proof {
            assert(v@ =~= field_names(*self));
        }
        v
    }

    /// Returns whether this descriptor is well formed: at every level, no
    /// two fields share a name.  A schema that fails this check is
    /// malformed and must be rejected before any table is populated from
    /// it.
    pub fn is_well_formed(&self) -> (r: bool)
        ensures
            r == desc_wf(*self),
        decreases *self,
    {
        let names = self.collect_field_names();
        if !names_all_unique(&names) {
            return false;
        }
        let mut i: usize = 0;
        while i < self.bases.len()
            invariant
                i <= self.bases@.len(),
                names_unique(field_names(*self)),
                forall|k: int| 0 <= k < i ==> desc_wf(#[trigger] self.bases@[k].desc),
            decreases self.bases@.len() - i,
        {
            if !self.bases[i].desc.is_well_formed() {
                return false;
            }
            i = i + 1;
        }
        true
    }
}

/// Whether a list of populated sections is, section for section, a value of
/// a list of declared sections: same length, same names in order, and each
/// populated table a value of its declared schema.
pub open spec fn bases_match(bases: Seq<BaseInst>, descs: Seq<BaseDesc>, target: Target) -> bool {
    &&& bases.len() == descs.len()
    &&& forall|i: int|
        0 <= i < descs.len() ==> (#[trigger] bases[i]).name == descs[i].name && inst_matches(
            bases[i].inst,
            descs[i].desc,
            target,
        )
}

impl TableInst {
    /// Returns whether this instance is a value of `desc`'s schema on
    /// `target`: same shape, same names, and every slot carrying exactly
    /// the convention the selector chooses for it.  This is the check a
    /// caller runs once, when a table is installed, before any call is
    /// dispatched through it.
    pub fn matches(&self, desc: &TableDesc, target: Target) -> (r: bool)
        ensures
            r == inst_matches(*self, *desc, target),
        decreases *desc,
    {
        if self.bases.len() != desc.bases.len() {
            return false;
        }
        if self.slots.len() != desc.slots.len() {
            return false;
        }
        let mut i: usize = 0;
        while i < self.bases.len()
            invariant
                i <= self.bases@.len(),
                self.bases@.len() == desc.bases@.len(),
                forall|k: int|
                    0 <= k < i ==> (#[trigger] self.bases@[k]).name == desc.bases@[k].name
                        && inst_matches(self.bases@[k].inst, desc.bases@[k].desc, target),
            decreases self.bases@.len() - i,
        {
            if self.bases[i].name != desc.bases[i].name {
                return false;
            }
            if !self.bases[i].inst.matches(&desc.bases[i].desc, target) {
                return false;
            }
            i = i + 1;
        }
        let mut j: usize = 0;
        while j < self.slots.len()
            invariant
                j <= self.slots@.len(),
                self.bases@.len() == desc.bases@.len(),
                self.slots@.len() == desc.slots@.len(),
                forall|k: int|
                    0 <= k < self.bases@.len() ==> (#[trigger] self.bases@[k]).name
                        == desc.bases@[k].name && inst_matches(
                        self.bases@[k].inst,
                        desc.bases@[k].desc,
                        target,
                    ),
                forall|k: int|
                    0 <= k < j ==> slot_matches(#[trigger] self.slots@[k], desc.slots@[k], target),
            decreases self.slots@.len() - j,
        {
            if self.slots[j].name != desc.slots[j].name {
                return false;
            }
            let want = select_convention(
                desc.slots[j].variadic,
                desc.slots[j].unwinding,
                target,
            );
            let got = self.slots[j].conv;
            if got.unwinding != want.unwinding {
                return false;
            }
            let kinds_eq = match (got.kind, want.kind) {
                (ConventionKind::StandardMember, ConventionKind::StandardMember) => true,
                (ConventionKind::ThisRegisterMember, ConventionKind::ThisRegisterMember) => true,
                (ConventionKind::StandardFree, ConventionKind::StandardFree) => true,
                _ => false,
            };
            if !kinds_eq {
                return false;
            }
            j = j + 1;
        }
        true
    }
}

/// Why a table could not be populated from a descriptor.
#[derive(Clone, Copy, Debug, PartialEq, Eq, Structural)]
pub enum BuildError {
    /// The supplied base sections do not match the descriptor's declared
    /// sections, in count, in name, or in shape.
    BaseSectionMismatch,
    /// The number of supplied function addresses differs from the number of
    /// declared slots.
    SlotCountMismatch,
}

/// Populates a table instance from a descriptor: the given base sections in
/// declared order, then one slot per declared signature, taking its name
/// from the schema, its address from `addrs` in declared order, and its
/// convention from the selector.  Fails, without building anything, when
/// the base sections do not match the schema or when the address count
/// differs from the slot count.
pub fn populate(
    desc: &TableDesc,
    bases: Vec<BaseInst>,
    addrs: &Vec<u64>,
    target: Target,
) -> (r: Result<TableInst, BuildError>)
    ensures
        r is Ok <==> bases_match(bases@, desc.bases@, target) && addrs@.len()
            == desc.slots@.len(),
        r == Result::<TableInst, BuildError>::Err(BuildError::BaseSectionMismatch) <==> !bases_match(
            bases@,
            desc.bases@,
            target,
        ),
        r == Result::<TableInst, BuildError>::Err(BuildError::SlotCountMismatch) <==> bases_match(
            bases@,
            desc.bases@,
            target,
        ) && addrs@.len() != desc.slots@.len(),
        r matches Ok(t) ==> {
            &&& inst_matches(t, *desc, target)
            &&& t.bases@ == bases@
            &&& t.slots@.len() == desc.slots@.len()
            &&& forall|i: int| 0 <= i < desc.slots@.len() ==> (#[trigger] t.slots@[i]).addr == addrs@[i]
        },
{
    if bases.len() != desc.bases.len() {
        return Err(BuildError::BaseSectionMismatch);
    }
    let mut i: usize = 0;
    while i < bases.len()
        invariant
            i <= bases@.len(),
            bases@.len() == desc.bases@.len(),
            forall|k: int|
                0 <= k < i ==> (#[trigger] bases@[k]).name == desc.bases@[k].name && inst_matches(
                    bases@[k].inst,
                    desc.bases@[k].desc,
                    target,
                ),
        decreases bases@.len() - i,
    {
        if bases[i].name != desc.bases[i].name {
            return Err(BuildError::BaseSectionMismatch);
        }
        if !bases[i].inst.matches(&desc.bases[i].desc, target) {
            return Err(BuildError::BaseSectionMismatch);
        }
        i = i + 1;
    }
    if addrs.len() != desc.slots.len() {
        return Err(BuildError::SlotCountMismatch);
    }
    let mut slots: Vec<SlotVal> = Vec::new();
    let mut j: usize = 0;
    while j < desc.slots.len()
        invariant
            j <= desc.slots@.len(),
            addrs@.len() == desc.slots@.len(),
            slots@.len() == j,
            forall|k: int|
                0 <= k < j ==> slot_matches(#[trigger] slots@[k], desc.slots@[k], target)
                    && slots@[k].addr == addrs@[k],
        decreases desc.slots@.len() - j,
    {
        let sig = &desc.slots[j];
        let conv = select_convention(sig.variadic, sig.unwinding, target);
        slots.push(SlotVal { name: sig.name, addr: addrs[j], conv });
        j = j + 1;
    }
    Ok(TableInst { bases, slots })
}

/// Law: an instance of a descriptor with N slots has exactly N populated
/// slots, in declared order — the field at each position carries the name
/// of the signature declared at that position and the convention the
/// selector chooses for that signature's shape — and its base sections
/// stand in declared order before them, one per declared base.
pub proof fn lemma_instance_shape(inst: TableInst, desc: TableDesc, target: Target)
    requires
        inst_matches(inst, desc, target),
    ensures
        inst.slots@.len() == desc.slots@.len(),
        forall|i: int|
            0 <= i < desc.slots@.len() ==> (#[trigger] inst.slots@[i]).name == desc.slots@[i].name,
        forall|i: int|
            0 <= i < desc.slots@.len() ==> (#[trigger] inst.slots@[i]).conv == selected(
                desc.slots@[i].variadic,
                desc.slots@[i].unwinding,
                target,
            ),
        inst.bases@.len() == desc.bases@.len(),
        forall|i: int|
            0 <= i < desc.bases@.len() ==> (#[trigger] inst.bases@[i]).name == desc.bases@[i].name,
{
    assert forall|i: int| 0 <= i < desc.slots@.len() implies (#[trigger] inst.slots@[i]).name
        == desc.slots@[i].name && inst.slots@[i].conv == selected(
        desc.slots@[i].variadic,
        desc.slots@[i].unwinding,
        target,
    ) by {
        assert(slot_matches(inst.slots@[i], desc.slots@[i], target));
    }
}

} // verus!
