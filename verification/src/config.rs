//! Where an installation keeps its files.

use vstd::prelude::*;
use crate::paths::{ends_with_path, joined, path_ends_with, path_join, path_pop, popped};
use crate::platform::{Arch, OSArch, OS};

verus! {

/// The tree of an installation, and the platform it runs on.
#[derive(Clone, Debug)]
pub struct Config {
    os_arch: OSArch,
    tree: String,
}

/// The tree that belongs to a program: where the program lies at
/// `usr/bin/zps` below a tree, its path without the last two components;
/// else the root directory.
pub open spec fn tree_of(exe: Option<Seq<char>>) -> Seq<char> {
    match exe {
        None => "/"@,
        Some(p) => if ends_with_path(p, "usr/bin/zps"@) {
            popped(popped(p))
        } else {
            "/"@
        },
    }
}

/// The tree of the running program, from the path of its executable where
/// that is known.
pub fn resolve_tree(exe: Option<&str>) -> (r: String)
    ensures
        r@ == tree_of(
            match exe {
                Some(p) => Some(p@),
                None => None,
            },
        ),
{
    match exe {
        None => String::from_str("/"),
        Some(p) => {
            if !path_ends_with(p, "usr/bin/zps") {
                return String::from_str("/");
            }
            let once = path_pop(p);
            path_pop(once.as_str())
        },
    }
}

/// The platform of an installation. The tree does not record one, so it is
/// the platform of the host.
pub fn osarch_from_config(tree: &str, host: OSArch) -> (r: OSArch)
    ensures
        r == host,
{
    host
}

impl Config {
    pub closed spec fn spec_os_arch(self) -> OSArch {
        self.os_arch
    }

    pub closed spec fn spec_tree(self) -> Seq<char> {
        self.tree@
    }

    /// The configuration of the running program on the given host.
    pub fn new(host: OSArch, exe: Option<&str>) -> (r: Config)
        ensures
            r.spec_os_arch() == host,
            r.spec_tree() == tree_of(
                match exe {
                    Some(p) => Some(p@),
                    None => None,
                },
            ),
    {
        Config { os_arch: host, tree: resolve_tree(exe) }
    }

    /// The configuration of the installation in the given tree.
    pub fn for_tree(tree: &str, host: OSArch) -> (r: Config)
        ensures
            r.spec_os_arch() == host,
            r.spec_tree() == tree@,
    {
        Config { os_arch: osarch_from_config(tree, host), tree: String::from_str(tree) }
    }

    pub fn arch(&self) -> (r: Arch)
        ensures
            r == self.spec_os_arch().spec_arch(),
    {
        self.os_arch.arch()
    }

    pub fn os(&self) -> (r: OS)
        ensures
            r == self.spec_os_arch().spec_os(),
    {
        self.os_arch.os()
    }

    pub fn tree(&self) -> (r: String)
        ensures
            r@ == self.spec_tree(),
    {
        self.tree.clone()
    }

    /// Where downloads are kept. It is the directory for temporary files.
    pub fn cache_path(&self) -> (r: String)
        ensures
            r@ == joined(self.spec_tree(), "var/tmp/zps"@),
    {
        path_join(self.tree.as_str(), "var/tmp/zps")
    }

    pub fn config_path(&self) -> (r: String)
        ensures
            r@ == joined(self.spec_tree(), "etc/zps"@),
    {
        path_join(self.tree.as_str(), "etc/zps")
    }

    pub fn data_path(&self) -> (r: String)
        ensures
            r@ == joined(self.spec_tree(), "var/lib/zps"@),
    {
        path_join(self.tree.as_str(), "var/lib/zps")
    }

    pub fn tmp_path(&self) -> (r: String)
        ensures
            r@ == joined(self.spec_tree(), "var/tmp/zps"@),
    {
        path_join(self.tree.as_str(), "var/tmp/zps")
    }
}

} // verus!
