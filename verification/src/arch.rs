//! The architecture that a package is built for.

use vstd::prelude::*;

verus! {

/// Whether two texts are the same, character by character.
pub fn same_text(left: &str, right: &str) -> (same: bool)
    ensures
        same == (left@ == right@),
{
    let len = left.unicode_len();
    if len != right.unicode_len() {
        return false;
    }
    let mut i: usize = 0;
    while i < len
        invariant
            i <= len,
            len == left@.len(),
            len == right@.len(),
            left@.take(i as int) == right@.take(i as int),
        decreases len - i,
    {
        if left.get_char(i) != right.get_char(i) {
            return false;
        }
        assert(left@.take(i + 1) == left@.take(i as int).push(left@[i as int]));
        assert(right@.take(i + 1) == right@.take(i as int).push(right@[i as int]));
        i = i + 1;
    }
    assert(left@.take(len as int) == left@);
    assert(right@.take(len as int) == right@);
    true
}

/// The name that RPM has for the architecture that Rust calls `host`.  Four
/// names differ; every other name is the same in both.
pub open spec fn rpm_arch(host: Seq<char>) -> Seq<char> {
    if host == "x86"@ {
        "i586"@
    } else if host == "arm"@ {
        "armhfp"@
    } else if host == "powerpc"@ {
        "ppc"@
    } else if host == "powerpc64"@ {
        "ppc64"@
    } else {
        host
    }
}

/// The architecture of the package: the one asked for, or else that of the
/// host under its RPM name.
pub open spec fn arch_of(target_arch: Option<Seq<char>>, host_arch: Seq<char>) -> Seq<char> {
    match target_arch {
        Some(arch) => arch,
        None => rpm_arch(host_arch),
    }
}

/// The RPM name of the host's architecture.
pub fn host_rpm_arch(host_arch: &str) -> (arch: &str)
    ensures
        arch@ == rpm_arch(host_arch@),
{
    if same_text(host_arch, "x86") {
        "i586"
    } else if same_text(host_arch, "arm") {
        "armhfp"
    } else if same_text(host_arch, "powerpc") {
        "ppc"
    } else if same_text(host_arch, "powerpc64") {
        "ppc64"
    } else {
        host_arch
    }
}

/// Chooses the architecture of the package.
pub fn resolve_arch(target_arch: Option<String>, host_arch: &str) -> (arch: String)
    ensures
        arch@ == arch_of(target_arch.deep_view(), host_arch@),
{
    match target_arch {
        Some(arch) => arch,
        None => host_rpm_arch(host_arch).to_owned(),
    }
}

} // verus!
