use vstd::prelude::*;

use crate::platform::{
    arch_label, arch_label_for, asset_name_for, asset_name_of, exe_suffix_for, exe_suffix_of,
    file_type_for, file_type_of, os_label, os_label_for, Architecture, DownloadedFileType, Os,
};

verus! {

/// One downloadable file attached to a published release.
#[derive(Clone, Debug)]
pub struct ReleaseAsset {
    pub name: String,
    pub download_url: String,
}

/// A published release of the language server.
#[derive(Clone, Debug)]
pub struct GithubRelease {
    pub version: String,
    pub assets: Vec<ReleaseAsset>,
}

/// Where and how to install one release on one platform.
#[derive(Clone, Debug)]
pub struct InstallPlan {
    /// URL of the archive to fetch.
    pub download_url: String,
    /// Directory, relative to the working directory, that the archive unpacks into.
    pub version_dir: String,
    /// Path of the server executable once unpacked.
    pub binary_path: String,
    /// Format of the archive.
    pub file_type: DownloadedFileType,
}

/// Directory that holds the release whose version is `version`.
pub open spec fn version_dir_of(version: Seq<char>) -> Seq<char> {
    "neocmakelsp-"@ + version
}

/// Path of the server executable inside `version_dir` on `os`.
pub open spec fn binary_path_of(version_dir: Seq<char>, os: Os) -> Seq<char> {
    version_dir + "/neocmakelsp"@ + exe_suffix_of(os)
}

/// Some asset of `assets` is called `name`.
pub open spec fn has_asset_named(assets: Seq<ReleaseAsset>, name: Seq<char>) -> bool {
    exists|i: int| 0 <= i < assets.len() && (#[trigger] assets[i]).name@ == name
}

/// `i` is the first position in `assets` of an asset called `name`.
pub open spec fn is_first_named(assets: Seq<ReleaseAsset>, name: Seq<char>, i: int) -> bool {
    &&& 0 <= i < assets.len()
    &&& assets[i].name@ == name
    &&& forall|j: int| 0 <= j < i ==> (#[trigger] assets[j]).name@ != name
}

/// Error text when no build is published for `os` on `arch`.
pub open spec fn unsupported_message(os: Os, arch: Architecture) -> Seq<char> {
    "Unsupported platform-arch combination: "@ + os_label(os) + " "@ + arch_label(arch)
}

/// Error text when the release lacks the asset called `name`.
pub open spec fn missing_asset_message(name: Seq<char>) -> Seq<char> {
    "no asset found matching \""@ + name + "\""@
}

/// `p` installs `release` on `os`, from the first asset called `name`.
pub open spec fn is_plan_for(p: InstallPlan, release: GithubRelease, os: Os, name: Seq<char>) -> bool {
    &&& exists|i: int|
        is_first_named(release.assets@, name, i) && p.download_url
            == #[trigger] release.assets@[i].download_url
    &&& p.version_dir@ == version_dir_of(release.version@)
    &&& p.binary_path@ == binary_path_of(version_dir_of(release.version@), os)
    &&& p.file_type == file_type_of(os)
}

/// `r` is the outcome of planning the install of `release` on `os` and `arch`:
/// the platform must have a published build, and the release must carry it.
pub open spec fn is_install_outcome(
    release: GithubRelease,
    os: Os,
    arch: Architecture,
    r: Result<InstallPlan, String>,
) -> bool {
    match asset_name_of(os, arch) {
        None => r is Err && r->Err_0@ == unsupported_message(os, arch),
        Some(name) => if has_asset_named(release.assets@, name) {
            r is Ok && is_plan_for(r->Ok_0, release, os, name)
        } else {
            r is Err && r->Err_0@ == missing_asset_message(name)
        },
    }
}

/// Position of the first asset of `assets` called `name`.
pub fn find_asset(assets: &Vec<ReleaseAsset>, name: &String) -> (r: Option<usize>)
    ensures
        r is None <==> !has_asset_named(assets@, name@),
        r is Some ==> is_first_named(assets@, name@, r->Some_0 as int),
{
    let mut i: usize = 0;
    while i < assets.len()
        invariant
            i <= assets.len(),
            forall|j: int| 0 <= j < i ==> (#[trigger] assets@[j]).name@ != name@,
        decreases assets.len() - i,
    {
        if assets[i].name == *name {
            return Some(i);
        }
        i = i + 1;
    }
    None
}

/// Directory that holds the release whose version is `version`.
pub fn version_dir_for(version: &String) -> (r: String)
    ensures
        r@ == version_dir_of(version@),
{
    let mut r = String::from_str("neocmakelsp-");
    r.append(version.as_str());
    r
}

/// Path of the server executable inside `version_dir` on `os`.
pub fn binary_path_for(version_dir: &String, os: Os) -> (r: String)
    ensures
        r@ == binary_path_of(version_dir@, os),
{
    let mut r = version_dir.clone();
    r.append("/neocmakelsp");
    r.append(exe_suffix_for(os));
    r
}

/// Error text when no build is published for `os` on `arch`.
pub fn unsupported_message_for(os: Os, arch: Architecture) -> (r: String)
    ensures
        r@ == unsupported_message(os, arch),
{
    let mut r = String::from_str("Unsupported platform-arch combination: ");
    r.append(os_label_for(os));
    r.append(" ");
    r.append(arch_label_for(arch));
    r
}

/// Error text when the release lacks the asset called `name`.
pub fn missing_asset_message_for(name: &String) -> (r: String)
    ensures
        r@ == missing_asset_message(name@),
{
    let mut r = String::from_str("no asset found matching \"");
    r.append(name.as_str());
    r.append("\"");
    r
}

/// Decides which asset of `release` to install on `os` and `arch`, and where.
pub fn plan_install(release: &GithubRelease, os: Os, arch: Architecture) -> (r: Result<
    InstallPlan,
    String,
>)
    ensures
        is_install_outcome(*release, os, arch, r),
{
    let name = match asset_name_for(os, arch) {
        Some(name) => name,
        None => {
            return Err(unsupported_message_for(os, arch));
        },
    };
    let i = match find_asset(&release.assets, &name) {
        Some(i) => i,
        None => {
            return Err(missing_asset_message_for(&name));
        },
    };
    let version_dir = version_dir_for(&release.version);
    let binary_path = binary_path_for(&version_dir, os);
    let plan = InstallPlan {
        download_url: release.assets[i].download_url.clone(),
        version_dir,
        binary_path,
        file_type: file_type_for(os),
    };
    assert(release.assets@[i as int].download_url == plan.download_url);
    Ok(plan)
}

} // verus!
