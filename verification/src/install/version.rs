//! The running version and what an installer should do about an installed copy.
use vstd::prelude::*;

use crate::storage::install::InstallAction;
use crate::text::concat;

verus! {

/// The version of this package.
pub open spec fn spec_current_version() -> Seq<char> {
    "0.1.1"@
}

/// The version of this package, as Cargo records it.
pub fn current_version() -> (s: &'static str)
    ensures
        s@ == spec_current_version(),
{
    "0.1.1"
}

/// The release tag of this version: `v` followed by the version.
pub fn current_release_tag() -> (s: String)
    ensures
        s@ == "v"@ + spec_current_version(),
{
    concat("v", current_version())
}

pub open spec fn spec_decide_action(installed_version: Option<Seq<char>>, install_broken: bool) -> InstallAction {
    if install_broken {
        InstallAction::Reinstall
    } else {
        match installed_version {
            None => InstallAction::Install,
            Some(v) => if v != spec_current_version() {
                InstallAction::Update
            } else {
                InstallAction::NoAction
            },
        }
    }
}

/// A broken install is reinstalled; a missing one installed; another version updated;
/// the current version left alone.
pub fn decide_action(installed_version: Option<&str>, install_broken: bool) -> (a: InstallAction)
    ensures
        a == spec_decide_action(
            match installed_version {
                Some(v) => Some(v@),
                None => None,
            },
            install_broken,
        ),
{
    if install_broken {
        return InstallAction::Reinstall;
    }
    match installed_version {
        None => InstallAction::Install,
        Some(v) => {
            if !crate::text::str_eq(v, current_version()) {
                InstallAction::Update
            } else {
                InstallAction::NoAction
            }
        },
    }
}

} // verus!
