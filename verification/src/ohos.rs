//! What building HarmonyOS's camera shim depends on.
use vstd::prelude::*;

verus! {

/// Whether two texts are the same.
fn same(a: &str, b: &str) -> (same: bool)
    ensures
        same == (a@ == b@),
{
    a.to_owned() == b.to_owned()
}

/// Whether a build for `target_env` compiles the shim: HarmonyOS with the ArkUI toolkit, and
/// nothing else, so that no other build needs the NDK.
pub fn builds_shim(target_env: &str, arkui: bool) -> (builds: bool)
    ensures
        builds == (target_env@ == "ohos"@ && arkui),
{
    arkui && same(target_env, "ohos")
}

/// The directory of the NDK's sysroot that holds the libraries of an architecture, if the NDK has
/// that architecture.
pub open spec fn spec_lib_arch(arch: Seq<char>) -> Option<Seq<char>> {
    if arch == "aarch64"@ {
        Some("aarch64-linux-ohos"@)
    } else if arch == "x86_64"@ {
        Some("x86_64-linux-ohos"@)
    } else if arch == "arm"@ {
        Some("arm-linux-ohos"@)
    } else {
        None
    }
}

/// The directory of the NDK's sysroot that holds the libraries of an architecture.
pub fn lib_arch(arch: &str) -> (dir: Option<&'static str>)
    ensures
        match dir {
            Some(dir) => spec_lib_arch(arch@) == Some(dir@),
            None => spec_lib_arch(arch@) is None,
        },
{
    if same(arch, "aarch64") {
        Some("aarch64-linux-ohos")
    } else if same(arch, "x86_64") {
        Some("x86_64-linux-ohos")
    } else if same(arch, "arm") {
        Some("arm-linux-ohos")
    } else {
        None
    }
}

/// The shim is built for HarmonyOS with the ArkUI toolkit, and for nothing else.
pub proof fn law_shim_is_for_harmony_with_arkui(target_env: &str, arkui: bool, builds: bool)
    requires
        call_ensures(builds_shim, (target_env, arkui), builds),
    ensures
        builds ==> arkui,
        builds ==> target_env@ == seq!['o', 'h', 'o', 's'],
        arkui && target_env@ == seq!['o', 'h', 'o', 's'] ==> builds,
{
    reveal_strlit("ohos");
    assert("ohos"@ =~= seq!['o', 'h', 'o', 's']);
}

/// A library directory is the architecture's name with the platform's behind it, for each of the
/// three architectures there are and for no other.
pub proof fn law_lib_dir_names_its_architecture(arch: &str, dir: Option<&'static str>)
    requires
        call_ensures(lib_arch, (arch,), dir),
    ensures
        dir is Some <==> {
            ||| arch@ == "aarch64"@
            ||| arch@ == "x86_64"@
            ||| arch@ == "arm"@
        },
        dir matches Some(dir) ==> dir@ == arch@ + "-linux-ohos"@,
{
    reveal_strlit("aarch64");
    reveal_strlit("x86_64");
    reveal_strlit("arm");
    reveal_strlit("-linux-ohos");
    reveal_strlit("aarch64-linux-ohos");
    reveal_strlit("x86_64-linux-ohos");
    reveal_strlit("arm-linux-ohos");
    assert("aarch64-linux-ohos"@ =~= "aarch64"@ + "-linux-ohos"@);
    assert("x86_64-linux-ohos"@ =~= "x86_64"@ + "-linux-ohos"@);
    assert("arm-linux-ohos"@ =~= "arm"@ + "-linux-ohos"@);
}

} // verus!
