//! What is known about the installed copy of Sentinel.
use vstd::prelude::*;

use crate::app::AppPaths;
use crate::install::version::{current_version, decide_action, spec_current_version, spec_decide_action};
use crate::text::{chars_of, char_views, owned, split, split_chars, str_eq, string_from_chars, trim_chars, trim_ws};

verus! {

/// What an installer should do.
#[derive(Debug, Clone, Copy, PartialEq, Eq, Structural)]
pub enum InstallAction {
    Install,
    Update,
    Reinstall,
    NoAction,
}

impl InstallAction {
    pub open spec fn spec_label(self) -> Seq<char> {
        match self {
            InstallAction::Install => "Install"@,
            InstallAction::Update => "Update"@,
            InstallAction::Reinstall => "Reinstall"@,
            InstallAction::NoAction => "None"@,
        }
    }

    /// The label shown for the action.
    pub fn label(self) -> (s: &'static str)
        ensures
            s@ == self.spec_label(),
    {
        match self {
            InstallAction::Install => "Install",
            InstallAction::Update => "Update",
            InstallAction::Reinstall => "Reinstall",
            InstallAction::NoAction => "None",
        }
    }
}

/// The installed copy as inspected now.
#[derive(Debug, Clone)]
pub struct InstallationState {
    pub installed: bool,
    pub path_entry: Option<String>,
    pub installed_version: Option<String>,
    pub target_version: String,
    pub action: InstallAction,
    pub last_install_result: String,
}

/// Reads and writes the installation metadata under the application's paths.
pub struct InstallStore {
    pub paths: AppPaths,
}

impl InstallStore {
    pub fn new(paths: AppPaths) -> (r: InstallStore)
        ensures
            r.paths == paths,
    {
        InstallStore { paths }
    }
}


/// What an inspection reports, from where the installed binary is (if found), the version it
/// printed (if any) and the last recorded installer result: installed when both are known;
/// the action follows the printed version, reinstalling a binary that printed none.
pub fn installation_state(
    install_path: Option<String>,
    installed_version: Option<String>,
    last_install_result: String,
) -> (r: InstallationState)
    ensures
        r.installed == (install_path is Some && installed_version is Some),
        r.path_entry == install_path,
        r.installed_version == installed_version,
        r.target_version@ == spec_current_version(),
        r.action == spec_decide_action(
            match installed_version { Some(v) => Some(v@), None => None },
            install_path is Some && installed_version is None,
        ),
        r.last_install_result == last_install_result,
{
    let broken = install_path.is_some() && installed_version.is_none();
    let action = match &installed_version {
        Some(v) => decide_action(Some(v.as_str()), broken),
        None => decide_action(None, broken),
    };
    InstallationState {
        installed: install_path.is_some() && installed_version.is_some(),
        path_entry: install_path,
        installed_version,
        target_version: owned(current_version()),
        action,
        last_install_result,
    }
}

/// The version a binary printed: its output trimmed, when it ran successfully and printed
/// something.
pub fn printed_version(success: bool, stdout: &str) -> (r: Option<String>)
    ensures
        !success ==> r is None,
        success ==> match r {
            Some(v) => v@ == trim_ws(stdout@) && v@.len() > 0,
            None => trim_ws(stdout@).len() == 0,
        },
{
    if !success {
        return None;
    }
    let raw = chars_of(stdout);
    let trimmed = trim_chars(&raw);
    if trimmed.len() == 0 {
        None
    } else {
        Some(string_from_chars(&trimmed))
    }
}

/// The components of a path: its pieces between `/`, without empty ones and `.`.
pub open spec fn path_components(path: Seq<char>) -> Seq<Seq<char>> {
    split(path, '/').filter(|c: Seq<char>| c.len() > 0 && c != "."@)
}

/// The running executable looks like an installed copy: it is called `sentinel` and no
/// directory on its path is a build directory (`target` or `deps`).
pub open spec fn spec_is_installed_binary(path: Seq<char>) -> bool {
    let cs = path_components(path);
    &&& cs.len() > 0
    &&& cs.last() == "sentinel"@
    &&& forall|i: int| 0 <= i < cs.len() ==> #[trigger] cs[i] != "target"@ && cs[i] != "deps"@
}

/// Whether the running executable at `path` looks like an installed copy.
pub fn is_installed_binary(path: &str) -> (b: bool)
    ensures
        b == spec_is_installed_binary(path@),
{
    let v = chars_of(path);
    let pieces = split_chars(&v, '/');
    let ghost all = char_views(pieces@);
    let ghost keep = |c: Seq<char>| c.len() > 0 && c != "."@;
    let mut comps: Vec<String> = Vec::new();
    proof {
        reveal(Seq::filter);
        assert(all.take(0) =~= Seq::<Seq<char>>::empty());
    }
    for i in 0..pieces.len()
        invariant
            all == char_views(pieces@),
            all == split(path@, '/'),
            keep == (|c: Seq<char>| c.len() > 0 && c != "."@),
            crate::text::views(comps@) == all.take(i as int).filter(keep),
    {
        let piece = string_from_chars(&pieces[i]);
        proof {
            assert(all.take(i + 1).drop_last() =~= all.take(i as int));
            assert(all.take(i + 1).last() == piece@);
            reveal(Seq::filter);
        }
        if pieces[i].len() > 0 && !str_eq(piece.as_str(), ".") {
            let ghost before = crate::text::views(comps@);
            comps.push(piece);
            assert(crate::text::views(comps@) =~= before.push(pieces@[i as int]@));
        }
    }
    assert(all.take(pieces.len() as int) =~= all);
    let ghost cs = crate::text::views(comps@);
    assert(cs == path_components(path@));
    if comps.len() == 0 || !str_eq(comps[comps.len() - 1].as_str(), "sentinel") {
        return false;
    }
    for i in 0..comps.len()
        invariant
            cs == crate::text::views(comps@),
            cs == path_components(path@),
            forall|k: int| 0 <= k < i ==> #[trigger] cs[k] != "target"@ && cs[k] != "deps"@,
    {
        if str_eq(comps[i].as_str(), "target") || str_eq(comps[i].as_str(), "deps") {
            assert(cs[i as int] == comps@[i as int]@);
            return false;
        }
    }
    true
}

} // verus!
