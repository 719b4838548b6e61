//! A stack-shaped table driven entirely through the dispatch protocol,
//! mirroring how a foreign object with `push`, `pop` and `length` methods
//! would be called: the test plays the machine, executing each prepared
//! invocation against a stack and a word of out-parameter memory.

use cppdvt::table::{SlotSig, TableDesc, TypeId, populate};
use cppdvt::{Arch, Invocation, Os, Target, TableStore, VTablePtr, VtObject, dispatch_call};

const PUSH: u64 = 1;
const POP: u64 = 2;
const LENGTH: u64 = 3;

const PUSH_ADDR: u64 = 0x100;
const POP_ADDR: u64 = 0x200;
const LENGTH_ADDR: u64 = 0x300;

const OBJ_ADDR: u64 = 0xBEEF;
const OUT_SLOT: u64 = 0x40;

struct Machine {
    stack: Vec<u64>,
    out_slot: u64,
}

impl Machine {
    /// Executes one prepared invocation, as the jump to the slot's address
    /// would: `push(value)` pushes, `pop(out_slot)` pops into the out
    /// word and returns whether a value was found, `length()` returns the
    /// count.  Every slot receives the object address first.
    fn run(&mut self, inv: Invocation) -> u64 {
        assert_eq!(inv.args[0], OBJ_ADDR);
        match inv.slot.addr {
            PUSH_ADDR => {
                self.stack.push(inv.args[1]);
                0
            }
            POP_ADDR => {
                assert_eq!(inv.args[1], OUT_SLOT);
                match self.stack.pop() {
                    Some(v) => {
                        self.out_slot = v;
                        1
                    }
                    None => 0,
                }
            }
            LENGTH_ADDR => self.stack.len() as u64,
            other => panic!("no slot function lives at address {other}"),
        }
    }
}

#[test]
fn stack_table_behaves_like_a_stack_through_dispatch() {
    let target = Target { os: Os::Linux, arch: Arch::X86_64 };
    let desc = TableDesc {
        bases: vec![],
        slots: vec![
            SlotSig {
                name: PUSH,
                params: vec![TypeId::Foreign(1)],
                ret: TypeId::Unit,
                variadic: false,
                unwinding: false,
            },
            SlotSig {
                name: POP,
                params: vec![TypeId::Foreign(2)],
                ret: TypeId::Foreign(3),
                variadic: false,
                unwinding: false,
            },
            SlotSig {
                name: LENGTH,
                params: vec![],
                ret: TypeId::Foreign(4),
                variadic: false,
                unwinding: false,
            },
        ],
    };
    assert!(desc.is_well_formed());
    let inst = populate(&desc, vec![], &vec![PUSH_ADDR, POP_ADDR, LENGTH_ADDR], target).unwrap();
    assert!(inst.matches(&desc, target));

    let mut store = TableStore::new();
    let address = store.install(inst);
    let obj = VtObject::new(VTablePtr::from_ref(&store, address), OBJ_ADDR);

    let mut machine = Machine { stack: Vec::new(), out_slot: 0 };

    let length = dispatch_call(&store, &obj, &vec![LENGTH], &vec![], |i| machine.run(i));
    assert_eq!(length, 0);

    let found = dispatch_call(&store, &obj, &vec![POP], &vec![OUT_SLOT], |i| machine.run(i));
    assert_eq!(found, 0);
    let length = dispatch_call(&store, &obj, &vec![LENGTH], &vec![], |i| machine.run(i));
    assert_eq!(length, 0);

    dispatch_call(&store, &obj, &vec![PUSH], &vec![42], |i| machine.run(i));
    let length = dispatch_call(&store, &obj, &vec![LENGTH], &vec![], |i| machine.run(i));
    assert_eq!(length, 1);

    dispatch_call(&store, &obj, &vec![PUSH], &vec![812], |i| machine.run(i));
    let length = dispatch_call(&store, &obj, &vec![LENGTH], &vec![], |i| machine.run(i));
    assert_eq!(length, 2);

    let found = dispatch_call(&store, &obj, &vec![POP], &vec![OUT_SLOT], |i| machine.run(i));
    assert_eq!(found, 1);
    assert_eq!(machine.out_slot, 812);

    let found = dispatch_call(&store, &obj, &vec![POP], &vec![OUT_SLOT], |i| machine.run(i));
    assert_eq!(found, 1);
    assert_eq!(machine.out_slot, 42);

    let found = dispatch_call(&store, &obj, &vec![POP], &vec![OUT_SLOT], |i| machine.run(i));
    assert_eq!(found, 0);
    let length = dispatch_call(&store, &obj, &vec![LENGTH], &vec![], |i| machine.run(i));
    assert_eq!(length, 0);
}
