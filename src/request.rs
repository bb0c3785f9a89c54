use vstd::prelude::*;

use crate::pod_spec::{build_pod, descriptor_of, key_view, PodDescriptor, PodTemplate};
use crate::session::{claim_listed, initial, Session};

verus! {

/// What the operator asked to inspect, and how.
#[derive(Debug)]
pub struct InspectionRequest {
    pub namespace: String,
    pub claim: String,
    /// Mount the claim writable; read-only unless asked for.
    pub read_write: bool,
    /// Local directory on which to mount the claim, if any.
    pub mountpoint: Option<String>,
    /// Wait until the pod is confirmed deleted before finishing.
    pub wait: bool,
}

impl InspectionRequest {
    /// A request with the default flags: read-only, no local mount, and
    /// waiting for the pod's deletion.
    pub fn new(namespace: String, claim: String) -> (r: InspectionRequest)
        ensures
            r.namespace@ == namespace@,
            r.claim@ == claim@,
            !r.read_write,
            r.mountpoint is None,
            r.wait,
    {
        InspectionRequest { namespace, claim, read_write: false, mountpoint: None, wait: true }
    }

    pub fn read_only(&self) -> (r: bool)
        ensures
            r == !self.read_write,
    {
        !self.read_write
    }

    /// The pod for this request.
    pub fn pod(&self, template: PodTemplate, public_key: Option<&String>) -> (r: PodDescriptor)
        ensures
            r@ == descriptor_of(
                template@,
                self.namespace@,
                self.claim@,
                !self.read_write,
                key_view(public_key),
            ),
    {
        build_pod(template, &self.namespace, &self.claim, self.read_only(), public_key)
    }

    /// Starts the session for this request against the claims listed in its
    /// namespace.
    pub fn start(&self, listed_claims: &Vec<String>) -> (r: Session)
        ensures
            r == initial(
                claim_listed(listed_claims@, self.claim@),
                self.mountpoint is Some,
                self.wait,
            ),
    {
        Session::begin(listed_claims, &self.claim, self.mountpoint.is_some(), self.wait)
    }
}

} // verus!
