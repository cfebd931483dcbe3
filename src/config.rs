//! The configuration, once read: the control-path directory and the tunnels.
use vstd::prelude::*;

use crate::manager::TunnelManager;
use crate::tunnel::Tunnel;

verus! {

/// The tunnels of a sequence by name; where two share a name, the later one.
pub open spec fn collected(ts: Seq<Tunnel>) -> Map<Seq<char>, Tunnel>
    decreases ts.len(),
{
    if ts.len() == 0 {
        Map::empty()
    } else {
        collected(ts.drop_last()).insert(ts.last().name_spec(), ts.last())
    }
}

/// The control-path directory (before expansion) and the tunnels, in the
/// order the configuration lists them.
pub struct Config {
    control_path_directory: String,
    tunnels: Vec<Tunnel>,
}

impl Config {
    pub closed spec fn directory(&self) -> Seq<char> {
        self.control_path_directory@
    }

    pub closed spec fn entries(&self) -> Seq<Tunnel> {
        self.tunnels@
    }

    pub fn new(control_path_directory: String, tunnels: Vec<Tunnel>) -> (r: Self)
        ensures
            r.directory() == control_path_directory@,
            r.entries() == tunnels@,
    {
        Config { control_path_directory, tunnels }
    }

    pub fn control_path_directory(&self) -> (r: &str)
        ensures
            r@ == self.directory(),
    {
        self.control_path_directory.as_str()
    }

    /// The manager of the configured tunnels; of two tunnels with one name,
    /// the later one stays.
    pub fn into_manager(self) -> (r: TunnelManager)
        ensures
            r.wf(),
            r.to_map() == collected(self.entries()),
    {
        let ghost all = self.tunnels@;
        let mut rest = self.tunnels;
        let mut manager = TunnelManager::new();
        assert(manager.to_map() =~= collected(all.take(0)));
        while rest.len() > 0
            invariant
                rest@.len() <= all.len(),
                rest@ == all.skip(all.len() - rest@.len()),
                manager.wf(),
                manager.to_map() == collected(all.take(all.len() - rest@.len())),
            decreases rest@.len(),
        {
            let ghost done = all.len() - rest@.len();
            let tunnel = rest.remove(0);
            assert(all.take(done + 1).drop_last() =~= all.take(done));
            assert(rest@ =~= all.skip(done + 1));
            manager.insert(tunnel);
        }
        assert(all.take(all.len() as int) =~= all);
        manager
    }
}

} // verus!
