//! The supported build-target platforms and their fixed labels.

use vstd::prelude::*;

verus! {

/// A build-target operating system, as the compile-time configuration
/// distinguishes it. `Other` stands for any target outside the three
/// named ones.
#[derive(Clone, Copy, Debug, PartialEq, Eq, Structural)]
pub enum Platform {
    Windows,
    MacOs,
    Linux,
    Other,
}

/// The lower-case platform name reported for `p`.
pub open spec fn platform_label(p: Platform) -> Seq<char> {
    match p {
        Platform::Windows => "windows"@,
        Platform::MacOs => "macos"@,
        Platform::Linux => "linux"@,
        Platform::Other => "unknown"@,
    }
}

/// The OS-type label reported for `p`, in the style of `uname`.
pub open spec fn os_type_label(p: Platform) -> Seq<char> {
    match p {
        Platform::Windows => "Windows_NT"@,
        Platform::MacOs => "Darwin"@,
        Platform::Linux => "Linux"@,
        Platform::Other => "Unknown"@,
    }
}

/// The fixed set of platform names that can ever be reported.
pub open spec fn platform_labels() -> Set<Seq<char>> {
    set!["windows"@, "macos"@, "linux"@, "unknown"@]
}

/// The fixed set of OS-type labels that can ever be reported.
pub open spec fn os_type_labels() -> Set<Seq<char>> {
    set!["Windows_NT"@, "Darwin"@, "Linux"@, "Unknown"@]
}

/// Platform name of the current build target.
pub fn get_platform(p: Platform) -> (r: String)
    ensures
        r@ == platform_label(p),
{
    match p {
        Platform::Windows => "windows".to_owned(),
        Platform::MacOs => "macos".to_owned(),
        Platform::Linux => "linux".to_owned(),
        Platform::Other => "unknown".to_owned(),
    }
}

/// OS type of the current build target.
pub fn get_os_type(p: Platform) -> (r: String)
    ensures
        r@ == os_type_label(p),
{
    match p {
        Platform::Windows => "Windows_NT".to_owned(),
        Platform::MacOs => "Darwin".to_owned(),
        Platform::Linux => "Linux".to_owned(),
        Platform::Other => "Unknown".to_owned(),
    }
}

/// Both labels are drawn from their fixed enumerations, and they are
/// mutually consistent: each platform name goes with exactly one
/// OS-type label, on every platform.
pub proof fn lemma_labels_consistent(p: Platform)
    ensures
        platform_labels().contains(platform_label(p)),
        os_type_labels().contains(os_type_label(p)),
        platform_label(p) == "windows"@ <==> os_type_label(p) == "Windows_NT"@,
        platform_label(p) == "macos"@ <==> os_type_label(p) == "Darwin"@,
        platform_label(p) == "linux"@ <==> os_type_label(p) == "Linux"@,
        platform_label(p) == "unknown"@ <==> os_type_label(p) == "Unknown"@,
{
    reveal_strlit("windows");
    reveal_strlit("macos");
    reveal_strlit("linux");
    reveal_strlit("unknown");
    reveal_strlit("Windows_NT");
    reveal_strlit("Darwin");
    reveal_strlit("Linux");
    reveal_strlit("Unknown");
    assert("windows"@.len() == 7);
    assert("macos"@.len() == 5);
    assert("linux"@.len() == 5);
    assert("unknown"@.len() == 7);
    assert("windows"@[0] == 'w');
    assert("unknown"@[0] == 'u');
    assert("macos"@[0] == 'm');
    assert("linux"@[0] == 'l');
    assert("Windows_NT"@.len() == 10);
    assert("Darwin"@.len() == 6);
    assert("Linux"@.len() == 5);
    assert("Unknown"@.len() == 7);
}

} // verus!
