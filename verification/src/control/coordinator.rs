//! Snapshot capture, local DNS redirection and restoration, service by service.
use vstd::prelude::*;

use crate::app::AppPaths;
use crate::control::snapshot::{service_view, services_view, NetworkServiceSnapshot, NetworkSnapshot};
use crate::platform::macos::MacOsNetworkManager;
use crate::text::{owned, views};

verus! {

/// Coordinates snapshot capture, local DNS redirection, and restoration flows.
pub struct Coordinator {
    pub paths: AppPaths,
    pub manager: MacOsNetworkManager,
}

impl Coordinator {
    pub fn new(paths: AppPaths) -> (r: Coordinator)
        ensures
            r.paths == paths,
            r.manager.paths == paths,
    {
        Coordinator { manager: MacOsNetworkManager::new(paths.duplicate()), paths }
    }

    /// The servers to set to send every service of `snapshot` to `local_ip`, in order.
    pub fn local_dns_plan(&self, snapshot: &NetworkSnapshot, local_ip: &str) -> (r: Vec<NetworkServiceSnapshot>)
        ensures
            r@.len() == snapshot.services@.len(),
            forall|i: int| 0 <= i < r@.len() ==> #[trigger] service_view(r@[i]) == (snapshot.services@[i].service@, seq![local_ip@]),
    {
        let mut r: Vec<NetworkServiceSnapshot> = Vec::new();
        for i in 0..snapshot.services.len()
            invariant
                r@.len() == i,
                forall|k: int| 0 <= k < i ==> #[trigger] service_view(r@[k]) == (snapshot.services@[k].service@, seq![local_ip@]),
        {
            let mut target: Vec<String> = Vec::new();
            target.push(owned(local_ip));
            assert(views(target@) =~= seq![local_ip@]);
            r.push(NetworkServiceSnapshot { service: snapshot.services[i].service.clone(), dns_servers: target });
        }
        r
    }

    /// The servers to set to put every service of `snapshot` back as it was, in order.
    pub fn restore_plan(&self, snapshot: &NetworkSnapshot) -> (r: Vec<NetworkServiceSnapshot>)
        ensures
            services_view(r@) == services_view(snapshot.services@),
    {
        let mut r: Vec<NetworkServiceSnapshot> = Vec::new();
        for i in 0..snapshot.services.len()
            invariant
                services_view(r@) == services_view(snapshot.services@).take(i as int),
        {
            let item = snapshot.services[i].duplicate();
            let ghost before = r@;
            r.push(item);
            assert(services_view(r@) =~= services_view(before).push(service_view(item)));
            assert(services_view(snapshot.services@).take(i + 1) =~= services_view(snapshot.services@).take(i as int).push(service_view(snapshot.services@[i as int])));
        }
        assert(services_view(snapshot.services@).take(snapshot.services.len() as int) =~= services_view(snapshot.services@));
        r
    }
}

} // verus!
