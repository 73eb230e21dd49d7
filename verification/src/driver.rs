//! Driver protocol: the lifecycle a driver module goes through — one
//! initialization step that produces a ready flag, then per-cloudlet
//! registration against the resolved backend.
//!
//! The backend handle is initialized exactly once and is read-only
//! afterwards; every cloudlet keeps its own read-only copy of it.

use crate::backend::{
    first_entry_match, node_entries, page_has_match, Backend, BackendError, Response,
};
use vstd::prelude::*;

verus! {

/// What a cloudlet declares it can do; registration requires the `child`
/// capability, which names the backend node the cloudlet runs on.
pub struct Capabilities {
    pub child: Option<String>,
}

/// The controller a registered cloudlet reports back to.
pub struct RemoteController {
    pub address: String,
}

/// Driver metadata returned by initialization; `ready` reflects whether
/// configuration loading and identity resolution succeeded.
pub struct Information {
    pub authors: Vec<String>,
    pub version: String,
    pub ready: bool,
}

/// Why a cloudlet registration failed.  The two resolution causes stay
/// distinguishable: a missing capability is never reported as an unknown
/// node, nor the other way round.
#[derive(Debug)]
pub enum DriverError {
    /// The driver is not ready: its backend was never resolved.
    NotReady,
    /// The capability set lacks the required `child` value.
    CapabilityMissing,
    /// The `child` capability names a node the backend does not know.
    NodeNotFound(String),
}

/// A managed worker node: created only after its node name resolved, and
/// bound to the resolved numeric node id.
pub struct PterodactylCloudlet {
    pub cloud_identifier: String,
    pub name: String,
    pub node_id: Option<u32>,
    pub capabilities: Capabilities,
    pub controller: RemoteController,
    /// The cloudlet's read-only copy of the resolved backend handle.
    pub backend: Option<Backend>,
}

/// The handle under which a registered cloudlet is handed back to the
/// controller.
pub struct PterodactylCloudletWrapper {
    pub inner: PterodactylCloudlet,
}

/// The driver instance: uninitialized until `init` ran, ready when that
/// produced a resolved backend, and growing an append-only cloudlet list.
pub struct Pterodactyl {
    pub cloud_identifier: String,
    pub backend: Option<Backend>,
    pub cloudlets: Vec<PterodactylCloudlet>,
}

impl Capabilities {
    /// A field-for-field copy.
    pub fn duplicate(&self) -> (r: Capabilities)
        ensures
            r == *self,
    {
        let child = match &self.child {
            Some(c) => Some(c.clone()),
            None => None,
        };
        Capabilities { child }
    }
}

impl PterodactylCloudlet {
    /// A field-for-field copy.
    pub fn duplicate(&self) -> (r: PterodactylCloudlet)
        ensures
            r == *self,
    {
        let backend = match &self.backend {
            Some(b) => Some(b.duplicate()),
            None => None,
        };
        PterodactylCloudlet {
            cloud_identifier: self.cloud_identifier.clone(),
            name: self.name.clone(),
            node_id: self.node_id,
            capabilities: self.capabilities.duplicate(),
            controller: RemoteController { address: self.controller.address.clone() },
            backend,
        }
    }
}

impl PterodactylCloudletWrapper {
    /// The backend handle this cloudlet was registered with.
    pub fn get_backend(&self) -> (r: Option<&Backend>)
        ensures
            match r {
                Some(b) => self.inner.backend matches Some(bb) && *b == bb,
                None => self.inner.backend is None,
            },
    {
        self.inner.backend.as_ref()
    }
}

impl Pterodactyl {
    /// A fresh, uninitialized driver: no backend, no cloudlets.
    pub fn new(cloud_identifier: String) -> (r: Pterodactyl)
        ensures
            r.cloud_identifier == cloud_identifier,
            r.backend is None,
            r.cloudlets@.len() == 0,
    {
        Pterodactyl { cloud_identifier, backend: None, cloudlets: Vec::new() }
    }

    /// The backend handle, present only when the driver is ready.
    pub fn get_backend(&self) -> (r: Option<&Backend>)
        ensures
            match r {
                Some(b) => self.backend matches Some(bb) && *b == bb,
                None => self.backend is None,
            },
    {
        self.backend.as_ref()
    }

    /// Installs the outcome of the one-time backend initialization
    /// ([`Backend::new_filled_and_resolved`]) and reports the driver
    /// metadata; `ready` is true exactly when initialization succeeded.
    /// The driver keeps existing when it is not ready, but registration
    /// then fails fast.  Initialization happens exactly once: a driver
    /// whose backend is already set is never re-initialized, so the handle
    /// stays immutable for the driver's lifetime.
    pub fn init(
        &mut self,
        backend: Result<Backend, BackendError>,
        authors: Vec<String>,
        version: String,
    ) -> (r: Information)
        requires
            old(self).backend is None,
        ensures
            final(self).cloud_identifier == old(self).cloud_identifier,
            final(self).cloudlets == old(self).cloudlets,
            match backend {
                Ok(b) => final(self).backend matches Some(bb) && bb == b && r.ready,
                Err(_) => final(self).backend is None && !r.ready,
            },
            r.authors == authors,
            r.version == version,
    {
        let ready = match backend {
            Ok(b) => {
                self.backend = Some(b);
                true
            },
            Err(_) => {
                self.backend = None;
                false
            },
        };
        Information { authors, version, ready }
    }

    /// Registers a cloudlet by its logical node name.  Fails fast with
    /// `NotReady` on an unresolved driver and with `CapabilityMissing` when
    /// no `child` capability is declared; when the named node cannot be
    /// resolved against the node-list answer the failure is `NodeNotFound`
    /// naming it.  On success the cloudlet is bound to the resolved node id
    /// and appended to the driver's cloudlet list — there is no
    /// deregistration path.
    pub fn init_cloudlet(
        &mut self,
        name: String,
        capabilities: Capabilities,
        controller: RemoteController,
        node_response: Option<Response>,
    ) -> (r: Result<PterodactylCloudletWrapper, DriverError>)
        ensures
            final(self).cloud_identifier == old(self).cloud_identifier,
            final(self).backend == old(self).backend,
            old(self).backend is None ==> r == Err::<PterodactylCloudletWrapper, DriverError>(
                DriverError::NotReady,
            ),
            (old(self).backend is Some && capabilities.child is None) ==> r == Err::<
                PterodactylCloudletWrapper,
                DriverError,
            >(DriverError::CapabilityMissing),
            r is Err ==> final(self).cloudlets == old(self).cloudlets,
            r matches Err(DriverError::NodeNotFound(n)) ==> {
                &&& old(self).backend is Some
                &&& capabilities.child matches Some(c) && n@ == c@
                &&& match node_entries(node_response) {
                    Some(entries) => !page_has_match(entries, n@),
                    None => true,
                }
            },
            r matches Ok(w) ==> {
                &&& old(self).backend is Some
                &&& capabilities.child is Some
                &&& w.inner.cloud_identifier == old(self).cloud_identifier
                &&& w.inner.name == name
                &&& w.inner.capabilities == capabilities
                &&& w.inner.controller == controller
                &&& w.inner.backend == old(self).backend
                &&& final(self).cloudlets@ == old(self).cloudlets@.push(w.inner)
                &&& (node_entries(node_response) matches Some(entries) && exists|i: int|
                    #[trigger] first_entry_match(entries, capabilities.child->Some_0@, i)
                        && w.inner.node_id == Some(entries[i].0))
            },
            ({
                &&& old(self).backend is Some
                &&& capabilities.child is Some
                &&& node_entries(node_response) matches Some(entries) && page_has_match(
                    entries,
                    capabilities.child->Some_0@,
                )
            }) ==> r is Ok,
    {
        let backend = match &self.backend {
            Some(b) => b,
            None => {
                return Err(DriverError::NotReady);
            },
        };
        let child = match &capabilities.child {
            Some(c) => c.clone(),
            None => {
                return Err(DriverError::CapabilityMissing);
            },
        };
        match backend.get_node_by_name(&child, node_response) {
            Some(node) => {
                proof {
                    let entries = node_entries(node_response)->Some_0;
                    let i = choose|i: int|
                        #[trigger] first_entry_match(entries, child@, i) && node.id == entries[i].0
                            && node.name@ == entries[i].1;
                    assert(first_entry_match(entries, capabilities.child->Some_0@, i) && Some(
                        node.id,
                    ) == Some(entries[i].0));
                }
                let cloudlet = PterodactylCloudlet {
                    cloud_identifier: self.cloud_identifier.clone(),
                    name,
                    node_id: Some(node.id),
                    capabilities,
                    controller,
                    backend: Some(backend.duplicate()),
                };
                let registered = cloudlet.duplicate();
                self.cloudlets.push(registered);
                Ok(PterodactylCloudletWrapper { inner: cloudlet })
            },
            None => Err(DriverError::NodeNotFound(child)),
        }
    }
}

} // verus!
