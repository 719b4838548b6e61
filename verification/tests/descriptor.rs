use cppdvt::table::{
    BaseDesc, BaseInst, BuildError, SlotSig, TableDesc, TypeId, names_all_unique, populate,
};
use cppdvt::{Arch, ConventionKind, Os, Target, select_convention};

fn linux64() -> Target {
    Target { os: Os::Linux, arch: Arch::X86_64 }
}

fn sig(name: u64, params: Vec<TypeId>) -> SlotSig {
    SlotSig { name, params, ret: TypeId::Unit, variadic: false, unwinding: false }
}

#[test]
fn well_formed_descriptor_accepts_distinct_names() {
    let desc = TableDesc {
        bases: vec![],
        slots: vec![sig(1, vec![]), sig(2, vec![]), sig(3, vec![])],
    };
    assert!(desc.is_well_formed());
}

#[test]
fn duplicate_slot_names_are_rejected() {
    let desc = TableDesc { bases: vec![], slots: vec![sig(1, vec![]), sig(1, vec![])] };
    assert!(!desc.is_well_formed());
}

#[test]
fn a_base_section_and_a_slot_share_one_namespace() {
    let base = TableDesc { bases: vec![], slots: vec![sig(9, vec![])] };
    let desc = TableDesc {
        bases: vec![BaseDesc { name: 4, desc: base }],
        slots: vec![sig(4, vec![])],
    };
    assert!(!desc.is_well_formed());
}

#[test]
fn a_malformed_base_section_makes_the_whole_schema_malformed() {
    let bad_base = TableDesc { bases: vec![], slots: vec![sig(7, vec![]), sig(7, vec![])] };
    let desc = TableDesc { bases: vec![BaseDesc { name: 1, desc: bad_base }], slots: vec![] };
    assert!(!desc.is_well_formed());
}

#[test]
fn name_uniqueness_check_matches_its_meaning() {
    assert!(names_all_unique(&vec![]));
    assert!(names_all_unique(&vec![5]));
    assert!(names_all_unique(&vec![1, 2, 3]));
    assert!(!names_all_unique(&vec![1, 2, 1]));
}

#[test]
fn populate_builds_slots_in_declared_order_with_selected_conventions() {
    let target = linux64();
    let desc = TableDesc {
        bases: vec![],
        slots: vec![
            sig(1, vec![TypeId::Foreign(40)]),
            SlotSig {
                name: 2,
                params: vec![],
                ret: TypeId::Foreign(41),
                variadic: true,
                unwinding: false,
            },
            SlotSig {
                name: 3,
                params: vec![],
                ret: TypeId::Unit,
                variadic: false,
                unwinding: true,
            },
        ],
    };
    let inst = populate(&desc, vec![], &vec![0xA1, 0xA2, 0xA3], target).unwrap();
    assert!(inst.matches(&desc, target));
    assert_eq!(inst.slots.len(), 3);
    assert_eq!(
        (inst.slots[0].name, inst.slots[1].name, inst.slots[2].name),
        (1, 2, 3),
    );
    assert_eq!(
        (inst.slots[0].addr, inst.slots[1].addr, inst.slots[2].addr),
        (0xA1, 0xA2, 0xA3),
    );
    assert_eq!(inst.slots[0].conv, select_convention(false, false, target));
    assert_eq!(inst.slots[0].conv.kind, ConventionKind::StandardMember);
    assert_eq!(inst.slots[1].conv.kind, ConventionKind::StandardFree);
    assert_eq!(inst.slots[2].conv.kind, ConventionKind::StandardMember);
    assert!(inst.slots[2].conv.unwinding);
}

#[test]
fn populate_on_the_exceptional_target_records_the_this_register_convention() {
    let target = Target { os: Os::Windows, arch: Arch::X86 };
    let desc = TableDesc { bases: vec![], slots: vec![sig(1, vec![])] };
    let inst = populate(&desc, vec![], &vec![0xF0], target).unwrap();
    assert_eq!(inst.slots[0].conv.kind, ConventionKind::ThisRegisterMember);
}

#[test]
fn populate_rejects_a_wrong_address_count() {
    let target = linux64();
    let desc = TableDesc { bases: vec![], slots: vec![sig(1, vec![]), sig(2, vec![])] };
    let r = populate(&desc, vec![], &vec![0xA1], target);
    assert_eq!(r.unwrap_err(), BuildError::SlotCountMismatch);
}

#[test]
fn populate_rejects_base_sections_that_do_not_match_the_schema() {
    let target = linux64();
    let base = TableDesc { bases: vec![], slots: vec![sig(9, vec![])] };
    let desc = TableDesc {
        bases: vec![BaseDesc {
            name: 1,
            desc: TableDesc { bases: vec![], slots: vec![sig(9, vec![])] },
        }],
        slots: vec![],
    };
    let base_inst = populate(&base, vec![], &vec![0xB1], target).unwrap();
    // Wrong section name.
    let r = populate(&desc, vec![BaseInst { name: 2, inst: base_inst }], &vec![], target);
    assert_eq!(r.unwrap_err(), BuildError::BaseSectionMismatch);
    // Missing section.
    let r = populate(&desc, vec![], &vec![], target);
    assert_eq!(r.unwrap_err(), BuildError::BaseSectionMismatch);
    // A section populated for another target carries the wrong conventions.
    let other = Target { os: Os::Windows, arch: Arch::X86 };
    let foreign_inst = populate(&base, vec![], &vec![0xB1], other).unwrap();
    let r = populate(&desc, vec![BaseInst { name: 1, inst: foreign_inst }], &vec![], target);
    assert_eq!(r.unwrap_err(), BuildError::BaseSectionMismatch);
}

#[test]
fn nested_population_matches_the_nested_schema() {
    let target = linux64();
    let pet = TableDesc { bases: vec![], slots: vec![sig(10, vec![]), sig(11, vec![])] };
    let lizard_ext = TableDesc { bases: vec![], slots: vec![sig(12, vec![])] };
    let lizard = TableDesc {
        bases: vec![
            BaseDesc {
                name: 1,
                desc: TableDesc { bases: vec![], slots: vec![sig(10, vec![]), sig(11, vec![])] },
            },
            BaseDesc { name: 2, desc: TableDesc { bases: vec![], slots: vec![sig(12, vec![])] } },
        ],
        slots: vec![],
    };
    assert!(lizard.is_well_formed());
    let pet_inst = populate(&pet, vec![], &vec![0x10, 0x11], target).unwrap();
    let ext_inst = populate(&lizard_ext, vec![], &vec![0x12], target).unwrap();
    let lizard_inst = populate(
        &lizard,
        vec![BaseInst { name: 1, inst: pet_inst }, BaseInst { name: 2, inst: ext_inst }],
        &vec![],
        target,
    )
    .unwrap();
    assert!(lizard_inst.matches(&lizard, target));
    assert_eq!(lizard_inst.bases.len(), 2);
    assert_eq!(lizard_inst.bases[0].inst.slots[1].addr, 0x11);
}

#[test]
fn an_empty_descriptor_is_well_formed_and_populates_to_an_empty_table() {
    let target = linux64();
    let desc = TableDesc { bases: vec![], slots: vec![] };
    assert!(desc.is_well_formed());
    let inst = populate(&desc, vec![], &vec![], target).unwrap();
    assert!(inst.matches(&desc, target));
    assert_eq!(inst.slots.len(), 0);
    assert_eq!(inst.bases.len(), 0);
    assert!(inst.resolve(&vec![1]).is_none());
    assert!(inst.resolve(&vec![]).is_none());
}

#[test]
fn full_signature_prepends_the_object_address() {
    let s = sig(1, vec![TypeId::Foreign(30), TypeId::Foreign(31)]);
    let full = s.full_signature();
    assert_eq!(
        full,
        vec![TypeId::Address, TypeId::Foreign(30), TypeId::Foreign(31)],
    );
    let empty = sig(2, vec![]);
    assert_eq!(empty.full_signature(), vec![TypeId::Address]);
}
