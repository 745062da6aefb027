//! Endpoints: where a service leads.

use vstd::prelude::*;

verus! {

/// The object behind an address.
#[derive(Debug, PartialEq)]
pub struct ObjectReference {
    pub kind: Option<String>,
    pub name: Option<String>,
}

/// The mathematical view of [`ObjectReference`].
#[verifier::ext_equal]
pub struct ObjectReferenceView {
    pub kind: Option<Seq<char>>,
    pub name: Option<Seq<char>>,
}

impl View for ObjectReference {
    type V = ObjectReferenceView;

    open spec fn view(&self) -> ObjectReferenceView {
        ObjectReferenceView {
            kind: self.kind.deep_view(),
            name: self.name.deep_view(),
        }
    }
}

impl DeepView for ObjectReference {
    type V = ObjectReferenceView;

    open spec fn deep_view(&self) -> ObjectReferenceView {
        self.view()
    }
}

/// One address of a service.
#[derive(Debug, PartialEq)]
pub struct EndpointAddress {
    pub target_ref: Option<ObjectReference>,
}

/// The mathematical view of [`EndpointAddress`].
#[verifier::ext_equal]
pub struct EndpointAddressView {
    pub target_ref: Option<ObjectReferenceView>,
}

impl View for EndpointAddress {
    type V = EndpointAddressView;

    open spec fn view(&self) -> EndpointAddressView {
        EndpointAddressView {
            target_ref: self.target_ref.deep_view(),
        }
    }
}

impl DeepView for EndpointAddress {
    type V = EndpointAddressView;

    open spec fn deep_view(&self) -> EndpointAddressView {
        self.view()
    }
}

/// Addresses that share ports.
#[derive(Debug, PartialEq)]
pub struct EndpointSubset {
    pub addresses: Option<Vec<EndpointAddress>>,
}

/// The mathematical view of [`EndpointSubset`].
#[verifier::ext_equal]
pub struct EndpointSubsetView {
    pub addresses: Option<Seq<EndpointAddressView>>,
}

impl View for EndpointSubset {
    type V = EndpointSubsetView;

    open spec fn view(&self) -> EndpointSubsetView {
        EndpointSubsetView {
            addresses: self.addresses.deep_view(),
        }
    }
}

impl DeepView for EndpointSubset {
    type V = EndpointSubsetView;

    open spec fn deep_view(&self) -> EndpointSubsetView {
        self.view()
    }
}

/// The addresses that a service leads to.
#[derive(Debug, PartialEq)]
pub struct Endpoints {
    pub subsets: Option<Vec<EndpointSubset>>,
}

/// The mathematical view of [`Endpoints`].
#[verifier::ext_equal]
pub struct EndpointsView {
    pub subsets: Option<Seq<EndpointSubsetView>>,
}

impl View for Endpoints {
    type V = EndpointsView;

    open spec fn view(&self) -> EndpointsView {
        EndpointsView {
            subsets: self.subsets.deep_view(),
        }
    }
}

impl DeepView for Endpoints {
    type V = EndpointsView;

    open spec fn deep_view(&self) -> EndpointsView {
        self.view()
    }
}

impl EndpointsView {
    /// The object behind the first address of the first subset.
    pub open spec fn first_target(self) -> Option<ObjectReferenceView> {
        match self.subsets {
            Some(subsets) if subsets.len() > 0 => match subsets[0].addresses {
                Some(addresses) if addresses.len() > 0 => addresses[0].target_ref,
                _ => None,
            },
            _ => None,
        }
    }
}

impl ObjectReferenceView {
    /// The object is a pod.
    pub open spec fn is_pod(self) -> bool {
        self.kind == Some("Pod"@)
    }
}

impl ObjectReference {
    /// Whether the object is a pod.
    pub fn is_pod(&self) -> (pod: bool)
        ensures
            pod == self@.is_pod(),
    {
        match &self.kind {
            Some(kind) => *kind == "Pod".to_string(),
            None => false,
        }
    }
}

impl Endpoints {
    /// The object behind the first address of the first subset.
    pub fn first_target(&self) -> (target: Option<&ObjectReference>)
        ensures
            target.deep_view() == self@.first_target(),
    {
        match &self.subsets {
            Some(subsets) => if subsets.len() > 0 {
                match &subsets[0].addresses {
                    Some(addresses) => if addresses.len() > 0 {
                        match &addresses[0].target_ref {
                            Some(target) => Some(target),
                            None => None,
                        }
                    } else {
                        None
                    },
                    None => None,
                }
            } else {
                None
            },
            None => None,
        }
    }
}

/// The object behind a service is the one of the first address of the first subset, if
/// there is such an address, and none of the others.
pub proof fn first_address_is_the_target(endpoints: EndpointsView)
    ensures
        endpoints.subsets is Some && endpoints.subsets->0.len() > 0
            && endpoints.subsets->0[0].addresses is Some
            && endpoints.subsets->0[0].addresses->0.len() > 0 ==> endpoints.first_target()
            == endpoints.subsets->0[0].addresses->0[0].target_ref,
        endpoints.subsets is None || endpoints.subsets->0.len() == 0
            || endpoints.subsets->0[0].addresses is None
            || endpoints.subsets->0[0].addresses->0.len() == 0
            ==> endpoints.first_target() is None,
{
}

/// An object is taken for a pod if and only if it says that it is one.
pub proof fn pods_say_so(target: ObjectReferenceView)
    ensures
        target.kind is Some ==> (target.is_pod() <==> target.kind->0 == "Pod"@),
        target.kind is None ==> !target.is_pod(),
{
}

} // verus!
