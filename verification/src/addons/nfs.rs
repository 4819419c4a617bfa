//! The manifests of NFS storage.
use crate::addons::settings::NfsConfig;
use crate::text::{replaced, str_replace, str_trim, trim};
use vstd::prelude::*;
use vstd::string::*;

verus! {

/// A manifest with the export in the place of the placeholders.
pub open spec fn with_export(template: Seq<char>, server: Seq<char>, path: Seq<char>) -> Seq<char> {
    replaced(replaced(template, "${NFS_SERVER}"@, server), "${NFS_PATH}"@, path)
}

/// The manifest of the provisioner for an export; `template` has placeholders
/// for the server and the path.
pub fn render_nfs_provisioner(template: &str, cfg: &NfsConfig) -> (r: String)
    ensures
        r@ == with_export(template@, trim(cfg@.server), trim(cfg@.path)),
{
    proof {
        reveal_strlit("${NFS_SERVER}");
        reveal_strlit("${NFS_PATH}");
    }
    str_replace(
        &str_replace(template, "${NFS_SERVER}", &str_trim(&cfg.server)),
        "${NFS_PATH}",
        &str_trim(&cfg.path),
    )
}

} // verus!
