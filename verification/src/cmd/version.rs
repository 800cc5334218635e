//! The `version` command: libvirt packs versions as one number.
use vstd::prelude::*;
use crate::text::{decimal, push_char, push_decimal};

verus! {

/// The `major.minor.release` form of a libvirt version number, which packs
/// the three parts as `major * 1000000 + minor * 1000 + release`.
pub open spec fn version_text(version: u64) -> Seq<char> {
    decimal(((version / 1000000) % 1000) as nat) + seq!['.'] + decimal(
        ((version / 1000) % 1000) as nat,
    ) + seq!['.'] + decimal((version % 1000) as nat)
}

/// Formats a packed version number as `major.minor.release`.
pub fn version_string(version: u64) -> (r: String)
    ensures
        r@ == version_text(version),
{
    let major = (version / 1000000) % 1000;
    let minor = (version / 1000) % 1000;
    let release = version % 1000;
    let mut s = String::new();
    push_decimal(&mut s, major);
    push_char(&mut s, '.');
    push_decimal(&mut s, minor);
    push_char(&mut s, '.');
    push_decimal(&mut s, release);
    assert(s@ =~= version_text(version));
    s
}

/// A version packed from parts below 1000 prints as those parts:
/// `major.minor.release`.
pub proof fn lemma_version_parts(major: nat, minor: nat, release: nat)
    requires
        major < 1000,
        minor < 1000,
        release < 1000,
    ensures
        version_text((major * 1000000 + minor * 1000 + release) as u64) == decimal(major) + seq!['.']
            + decimal(minor) + seq!['.'] + decimal(release),
{
    let v = major * 1000000 + minor * 1000 + release;
    assert(v < 1000000000);
    assert(v / 1000000 == major && (v / 1000) % 1000 == minor && v % 1000 == release)
        by (nonlinear_arith)
        requires
            v == major * 1000000 + minor * 1000 + release,
            major < 1000,
            minor < 1000,
            release < 1000,
    ;
    assert(((v as u64) / 1000000) % 1000 == major);
    assert(((v as u64) / 1000) % 1000 == minor);
    assert((v as u64) % 1000 == release);
}

/// A line of the `version` command's output.
#[derive(Clone, Copy, Debug, PartialEq, Eq, Structural)]
pub enum VersionLine {
    /// The library version the client was built against.
    CompiledLibrary,
    /// The library version in use.
    UsingLibrary,
    /// The hypervisor type and the library version.
    UsingApi,
    /// The hypervisor type and its version.
    RunningHypervisor,
}

/// The lines printed, in order, given which of the hypervisor type, the
/// hypervisor version and the library version could be read: the two
/// library lines need the library version, the API line the type and the
/// library version, the hypervisor line the type and the hypervisor version.
pub open spec fn version_lines_of(has_type: bool, has_hv_ver: bool, has_lib_ver: bool) -> Seq<VersionLine> {
    (if has_lib_ver {
        seq![VersionLine::CompiledLibrary, VersionLine::UsingLibrary]
    } else {
        Seq::empty()
    }) + (if has_type && has_lib_ver {
        seq![VersionLine::UsingApi]
    } else {
        Seq::empty()
    }) + (if has_type && has_hv_ver {
        seq![VersionLine::RunningHypervisor]
    } else {
        Seq::empty()
    })
}

/// The lines the `version` command prints.
pub fn version_lines(has_type: bool, has_hv_ver: bool, has_lib_ver: bool) -> (r: Vec<VersionLine>)
    ensures
        r@ == version_lines_of(has_type, has_hv_ver, has_lib_ver),
{
    let mut v: Vec<VersionLine> = Vec::new();
    if has_lib_ver {
        v.push(VersionLine::CompiledLibrary);
        v.push(VersionLine::UsingLibrary);
    }
    if has_type && has_lib_ver {
        v.push(VersionLine::UsingApi);
    }
    if has_type && has_hv_ver {
        v.push(VersionLine::RunningHypervisor);
    }
    assert(v@ =~= version_lines_of(has_type, has_hv_ver, has_lib_ver));
    v
}

} // verus!
