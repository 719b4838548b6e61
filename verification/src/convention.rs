//! Selection of the native calling convention for a virtual method slot.
//!
//! Every slot of a foreign table is reached through a function address, and
//! that address is only callable under the calling convention the foreign
//! compiler chose for it.  The choice is a pure function of the slot's shape
//! (variadic or not, allowed to unwind or not) and of the target platform:
//! non-variadic virtual methods use the platform's member-function
//! convention, except on 32-bit x86 Windows, whose dedicated
//! this-pointer-in-register convention must be used instead; variadic
//! methods always use the free-function convention, because the dedicated
//! member convention cannot pass variable arguments.

use vstd::prelude::*;

verus! {

/// Target operating system, as far as the convention choice cares.
#[derive(Clone, Copy, Debug, PartialEq, Eq, Structural)]
pub enum Os {
    /// Microsoft Windows.
    Windows,
    /// Linux.
    Linux,
    /// Apple macOS.
    MacOs,
    /// FreeBSD.
    FreeBsd,
}

/// Target instruction-set architecture, as far as the convention choice cares.
#[derive(Clone, Copy, Debug, PartialEq, Eq, Structural)]
pub enum Arch {
    /// 32-bit x86.
    X86,
    /// 64-bit x86.
    X86_64,
    /// 64-bit Arm.
    Aarch64,
}

/// A compilation target: the pair of inputs the convention choice reads.
#[derive(Clone, Copy, Debug, PartialEq, Eq, Structural)]
pub struct Target {
    /// Target operating system.
    pub os: Os,
    /// Target instruction-set architecture.
    pub arch: Arch,
}

/// The register-usage contract a slot's function address was compiled for.
#[derive(Clone, Copy, Debug, PartialEq, Eq, Structural)]
pub enum ConventionKind {
    /// The platform's standard convention for member functions.
    StandardMember,
    /// The dedicated convention that passes the object address in a
    /// register, used for member functions on 32-bit x86 Windows.
    ThisRegisterMember,
    /// The platform's standard convention for free functions, the only one
    /// that supports variable arguments.
    StandardFree,
}

/// A full convention tag: a register-usage contract together with whether a
/// foreign exception may cross the call boundary.
#[derive(Clone, Copy, Debug, PartialEq, Eq, Structural)]
pub struct Convention {
    /// Which register-usage contract the callee was compiled for.
    pub kind: ConventionKind,
    /// Whether a foreign exception is permitted to propagate out of the
    /// call.  When false, an unwind crossing the boundary is an
    /// unrecoverable fault.
    pub unwinding: bool,
}

/// Whether this target is the one exception that needs the dedicated
/// this-pointer-in-register member convention.
pub open spec fn needs_this_register(target: Target) -> bool {
    target.os == Os::Windows && target.arch == Arch::X86
}

/// The register-usage contract chosen for a slot shape on a target.
pub open spec fn selected_kind(variadic: bool, target: Target) -> ConventionKind {
    if variadic {
        ConventionKind::StandardFree
    } else if needs_this_register(target) {
        ConventionKind::ThisRegisterMember
    } else {
        ConventionKind::StandardMember
    }
}

/// The convention chosen for a slot shape on a target.
pub open spec fn selected(variadic: bool, unwinding: bool, target: Target) -> Convention {
    Convention { kind: selected_kind(variadic, target), unwinding }
}

impl Target {
    /// Returns whether this target requires the dedicated
    /// this-pointer-in-register convention for non-variadic virtual methods.
    pub fn is_this_register_target(&self) -> (r: bool)
        ensures
            r == needs_this_register(*self),
    {
        match (self.os, self.arch) {
            (Os::Windows, Arch::X86) => true,
            _ => false,
        }
    }
}

/// Chooses the calling convention a virtual method slot must be declared
/// with, given the slot's shape and the compilation target.
pub fn select_convention(variadic: bool, unwinding: bool, target: Target) -> (c: Convention)
    ensures
        c == selected(variadic, unwinding, target),
{
    let kind = if variadic {
        ConventionKind::StandardFree
    } else if target.is_this_register_target() {
        ConventionKind::ThisRegisterMember
    } else {
        ConventionKind::StandardMember
    };
    Convention { kind, unwinding }
}

/// The token a declaration would spell this convention with, as native
/// toolchains name it.
pub open spec fn spec_abi_token(c: Convention) -> Seq<char> {
    match (c.kind, c.unwinding) {
        (ConventionKind::ThisRegisterMember, false) => "thiscall"@,
        (ConventionKind::ThisRegisterMember, true) => "thiscall-unwind"@,
        (_, false) => "C"@,
        (_, true) => "C-unwind"@,
    }
}

/// Returns the token a declaration would spell this convention with.  The
/// standard member and standard free contracts share one token; only the
/// dedicated this-register contract has a token of its own.
pub fn abi_token(c: Convention) -> (s: &'static str)
    ensures
        s@ == spec_abi_token(c),
{
    match (c.kind, c.unwinding) {
        (ConventionKind::ThisRegisterMember, false) => "thiscall",
        (ConventionKind::ThisRegisterMember, true) => "thiscall-unwind",
        (_, false) => "C",
        (_, true) => "C-unwind",
    }
}

/// Law: for every combination of slot shape and target, the selector returns
/// the documented tag.  Variadic slots always get the standard free-function
/// convention; non-variadic slots get the dedicated this-register member
/// convention exactly on 32-bit x86 Windows and the standard member
/// convention everywhere else; the unwinding flag is passed through
/// unchanged in every case.
pub proof fn lemma_selector_documented(variadic: bool, unwinding: bool, target: Target)
    ensures
        variadic ==> selected(variadic, unwinding, target).kind == ConventionKind::StandardFree,
        !variadic && needs_this_register(target) ==> selected(variadic, unwinding, target).kind
            == ConventionKind::ThisRegisterMember,
        !variadic && !needs_this_register(target) ==> selected(variadic, unwinding, target).kind
            == ConventionKind::StandardMember,
        selected(variadic, unwinding, target).unwinding == unwinding,
{
}

} // verus!
