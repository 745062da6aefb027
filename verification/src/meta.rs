//! Object metadata: names, namespaces, owners.

use crate::string_map::StringMap;
use k8s_openapi::apimachinery::pkg::apis::meta::v1::{ManagedFieldsEntry, Time};
use vstd::prelude::*;

verus! {

/// A point in time, as the API server writes it. The operator only carries it along.
#[verifier::external_type_specification]
#[verifier::external_body]
pub struct ExTime(k8s_openapi::apimachinery::pkg::apis::meta::v1::Time);

/// What one field manager owns of an object. The operator only carries it along.
#[verifier::external_type_specification]
#[verifier::external_body]
pub struct ExManagedFieldsEntry(
    k8s_openapi::apimachinery::pkg::apis::meta::v1::ManagedFieldsEntry,
);

/// One owner of an object.
#[derive(Debug, PartialEq)]
pub struct OwnerReference {
    pub api_version: String,
    pub block_owner_deletion: Option<bool>,
    pub controller: Option<bool>,
    pub kind: String,
    pub name: String,
    pub uid: String,
}

/// The mathematical view of [`OwnerReference`].
#[verifier::ext_equal]
pub struct OwnerReferenceView {
    pub api_version: Seq<char>,
    pub block_owner_deletion: Option<bool>,
    pub controller: Option<bool>,
    pub kind: Seq<char>,
    pub name: Seq<char>,
    pub uid: Seq<char>,
}

impl View for OwnerReference {
    type V = OwnerReferenceView;

    open spec fn view(&self) -> OwnerReferenceView {
        OwnerReferenceView {
            api_version: self.api_version@,
            block_owner_deletion: self.block_owner_deletion,
            controller: self.controller,
            kind: self.kind@,
            name: self.name@,
            uid: self.uid@,
        }
    }
}

impl DeepView for OwnerReference {
    type V = OwnerReferenceView;

    open spec fn deep_view(&self) -> OwnerReferenceView {
        self.view()
    }
}

/// The metadata that every object has.
#[derive(Debug, PartialEq)]
pub struct ObjectMeta {
    pub annotations: Option<StringMap>,
    pub creation_timestamp: Option<Time>,
    pub deletion_grace_period_seconds: Option<i64>,
    pub deletion_timestamp: Option<Time>,
    pub finalizers: Option<Vec<String>>,
    pub generate_name: Option<String>,
    pub generation: Option<i64>,
    pub labels: Option<StringMap>,
    pub managed_fields: Option<Vec<ManagedFieldsEntry>>,
    pub name: Option<String>,
    pub namespace: Option<String>,
    pub owner_references: Option<Vec<OwnerReference>>,
    pub resource_version: Option<String>,
    pub self_link: Option<String>,
    pub uid: Option<String>,
}

/// The mathematical view of [`ObjectMeta`].
#[verifier::ext_equal]
pub struct ObjectMetaView {
    pub annotations: Option<Map<Seq<char>, Seq<char>>>,
    pub creation_timestamp: Option<Time>,
    pub deletion_grace_period_seconds: Option<i64>,
    pub deletion_timestamp: Option<Time>,
    pub finalizers: Option<Seq<Seq<char>>>,
    pub generate_name: Option<Seq<char>>,
    pub generation: Option<i64>,
    pub labels: Option<Map<Seq<char>, Seq<char>>>,
    pub managed_fields: Option<Vec<ManagedFieldsEntry>>,
    pub name: Option<Seq<char>>,
    pub namespace: Option<Seq<char>>,
    pub owner_references: Option<Seq<OwnerReferenceView>>,
    pub resource_version: Option<Seq<char>>,
    pub self_link: Option<Seq<char>>,
    pub uid: Option<Seq<char>>,
}

impl View for ObjectMeta {
    type V = ObjectMetaView;

    open spec fn view(&self) -> ObjectMetaView {
        ObjectMetaView {
            annotations: self.annotations.deep_view(),
            creation_timestamp: self.creation_timestamp,
            deletion_grace_period_seconds: self.deletion_grace_period_seconds,
            deletion_timestamp: self.deletion_timestamp,
            finalizers: self.finalizers.deep_view(),
            generate_name: self.generate_name.deep_view(),
            generation: self.generation,
            labels: self.labels.deep_view(),
            managed_fields: self.managed_fields,
            name: self.name.deep_view(),
            namespace: self.namespace.deep_view(),
            owner_references: self.owner_references.deep_view(),
            resource_version: self.resource_version.deep_view(),
            self_link: self.self_link.deep_view(),
            uid: self.uid.deep_view(),
        }
    }
}

impl DeepView for ObjectMeta {
    type V = ObjectMetaView;

    open spec fn deep_view(&self) -> ObjectMetaView {
        self.view()
    }
}

impl Clone for OwnerReference {
    fn clone(&self) -> (copy: OwnerReference)
        ensures
            copy@ == self@,
    {
        OwnerReference {
            api_version: self.api_version.clone(),
            block_owner_deletion: self.block_owner_deletion,
            controller: self.controller,
            kind: self.kind.clone(),
            name: self.name.clone(),
            uid: self.uid.clone(),
        }
    }
}

/// A list of owners names the owner with this uid.
pub open spec fn names_owner(owners: Seq<OwnerReferenceView>, uid: Seq<char>) -> bool {
    exists|i: int| 0 <= i < owners.len() && #[trigger] owners[i].uid == uid
}

impl ObjectMetaView {
    /// Metadata in which nothing is set.
    pub open spec fn empty() -> ObjectMetaView {
        ObjectMetaView {
            annotations: None,
            creation_timestamp: None,
            deletion_grace_period_seconds: None,
            deletion_timestamp: None,
            finalizers: None,
            generate_name: None,
            generation: None,
            labels: None,
            managed_fields: None,
            name: None,
            namespace: None,
            owner_references: None,
            resource_version: None,
            self_link: None,
            uid: None,
        }
    }

    /// The name, else the prefix that a name is generated from, else nothing.
    pub open spec fn name_any(self) -> Seq<char> {
        match self.name {
            Some(name) => name,
            None => match self.generate_name {
                Some(prefix) => prefix,
                None => Seq::empty(),
            },
        }
    }

    /// The owners, none where no list is set.
    pub open spec fn owners(self) -> Seq<OwnerReferenceView> {
        match self.owner_references {
            Some(owners) => owners,
            None => Seq::empty(),
        }
    }

    /// One of the owners has this uid.
    pub open spec fn owned_by(self, uid: Seq<char>) -> bool {
        names_owner(self.owners(), uid)
    }

    /// The same metadata with one more owner, behind those that it has.
    pub open spec fn with_owner(self, owner: OwnerReferenceView) -> ObjectMetaView {
        ObjectMetaView { owner_references: Some(self.owners().push(owner)), ..self }
    }

    /// The same metadata without a record of who manages which field. An object is
    /// applied in this form.
    pub open spec fn unmanaged(self) -> ObjectMetaView {
        ObjectMetaView { managed_fields: None, ..self }
    }
}

impl ObjectMeta {
    /// Metadata in which nothing is set.
    pub fn empty() -> (meta: ObjectMeta)
        ensures
            meta@ == ObjectMetaView::empty(),
    {
        ObjectMeta {
            annotations: None,
            creation_timestamp: None,
            deletion_grace_period_seconds: None,
            deletion_timestamp: None,
            finalizers: None,
            generate_name: None,
            generation: None,
            labels: None,
            managed_fields: None,
            name: None,
            namespace: None,
            owner_references: None,
            resource_version: None,
            self_link: None,
            uid: None,
        }
    }

    /// The name, else the prefix that a name is generated from, else nothing.
    pub fn name_any(&self) -> (name: String)
        ensures
            name@ == self@.name_any(),
    {
        match &self.name {
            Some(name) => name.clone(),
            None => match &self.generate_name {
                Some(prefix) => prefix.clone(),
                None => String::new(),
            },
        }
    }

    /// Whether one of the owners has this uid.
    pub fn owned_by(&self, uid: &String) -> (owned: bool)
        ensures
            owned == self@.owned_by(uid@),
    {
        match &self.owner_references {
            Some(owners) => {
                let len: usize = owners.len();
                for i in 0..len
                    invariant
                        len == owners.len(),
                        self@.owners() == owners.deep_view(),
                        forall|j: int| 0 <= j < i ==> #[trigger] self@.owners()[j].uid != uid@,
                {
                    if owners[i].uid == *uid {
                        proof {
                            assert(self@.owners()[i as int].uid == uid@);
                        }
                        return true;
                    }
                }
                false
            },
            None => false,
        }
    }

    /// The name of the first owner.
    pub fn first_owner(&self) -> (name: Option<String>)
        ensures
            name.deep_view() == (if self@.owners().len() > 0 {
                Some(self@.owners()[0].name)
            } else {
                None
            }),
    {
        match &self.owner_references {
            Some(owners) => if owners.len() > 0 {
                Some(owners[0].name.clone())
            } else {
                None
            },
            None => None,
        }
    }

    /// Adds an owner behind those that the object has.
    pub fn add_owner(self, owner: OwnerReference) -> (meta: ObjectMeta)
        ensures
            meta@ == self@.with_owner(owner@),
            meta == (ObjectMeta { owner_references: meta.owner_references, ..self }),
    {
        let ghost before = self@.owners();
        let mut owners: Vec<OwnerReference> = match self.owner_references {
            Some(owners) => owners,
            None => Vec::new(),
        };
        proof {
            assert(owners.deep_view() =~= before);
        }
        owners.push(owner);
        proof {
            assert(owners.deep_view() =~= before.push(owner@));
        }
        ObjectMeta { owner_references: Some(owners), ..self }
    }
}

/// Adding an owner makes it an owner, keeps every other, and keeps the order.
pub proof fn added_owner_is_an_owner(meta: ObjectMetaView, owner: OwnerReferenceView)
    ensures
        meta.with_owner(owner).owned_by(owner.uid),
        meta.with_owner(owner).owners().drop_last() == meta.owners(),
        forall|uid: Seq<char>|
            #![trigger meta.owned_by(uid)]
            meta.with_owner(owner).owned_by(uid) == (uid == owner.uid || meta.owned_by(uid)),
{
    let after = meta.with_owner(owner).owners();
    assert(after[meta.owners().len() as int] == owner);
    assert(after.drop_last() =~= meta.owners());
    assert forall|uid: Seq<char>| #![trigger meta.owned_by(uid)] meta.with_owner(owner).owned_by(uid)
        == (uid == owner.uid || meta.owned_by(uid)) by {
        if meta.owned_by(uid) {
            let i = choose|i: int| 0 <= i < meta.owners().len() && #[trigger] meta.owners()[i].uid == uid;
            assert(after[i].uid == uid);
        }
        if meta.with_owner(owner).owned_by(uid) && uid != owner.uid {
            let i = choose|i: int| 0 <= i < after.len() && #[trigger] after[i].uid == uid;
            assert(meta.owners()[i].uid == uid);
        }
    }
}

/// Metadata in which nothing is set has no entry at all.
pub proof fn empty_metadata_sets_nothing()
    ensures
        ObjectMetaView::empty().annotations is None,
        ObjectMetaView::empty().creation_timestamp is None,
        ObjectMetaView::empty().deletion_grace_period_seconds is None,
        ObjectMetaView::empty().deletion_timestamp is None,
        ObjectMetaView::empty().finalizers is None,
        ObjectMetaView::empty().generate_name is None,
        ObjectMetaView::empty().generation is None,
        ObjectMetaView::empty().labels is None,
        ObjectMetaView::empty().managed_fields is None,
        ObjectMetaView::empty().name is None,
        ObjectMetaView::empty().namespace is None,
        ObjectMetaView::empty().owner_references is None,
        ObjectMetaView::empty().resource_version is None,
        ObjectMetaView::empty().self_link is None,
        ObjectMetaView::empty().uid is None,
{
}

/// An object goes by its name; without one by the prefix that a name is generated from;
/// without that by nothing.
pub proof fn name_comes_before_the_prefix(meta: ObjectMetaView)
    ensures
        meta.name is Some ==> meta.name_any() == meta.name->0,
        meta.name is None && meta.generate_name is Some ==> meta.name_any()
            == meta.generate_name->0,
        meta.name is None && meta.generate_name is None ==> meta.name_any().len() == 0,
{
}

/// The owners are those of the list, and an object is owned by a uid if and only if some
/// owner in the list has it.
pub proof fn owners_are_those_listed(meta: ObjectMetaView, uid: Seq<char>)
    ensures
        meta.owner_references is Some ==> meta.owners() == meta.owner_references->0,
        meta.owner_references is None ==> meta.owners().len() == 0 && !meta.owned_by(uid),
        meta.owner_references is Some ==> (meta.owned_by(uid) <==> exists|i: int|
            0 <= i < meta.owner_references->0.len() && (
            #[trigger] meta.owner_references->0[i]).uid == uid),
{
    if meta.owner_references is Some {
        let owners = meta.owner_references->0;
        if meta.owned_by(uid) {
            let i = choose|i: int| 0 <= i < owners.len() && #[trigger] owners[i].uid == uid;
            assert(meta.owner_references->0[i].uid == uid);
        }
        if exists|i: int|
            0 <= i < meta.owner_references->0.len() && (
            #[trigger] meta.owner_references->0[i]).uid == uid {
            let i = choose|i: int|
                0 <= i < meta.owner_references->0.len() && (
                #[trigger] meta.owner_references->0[i]).uid == uid;
            assert(meta.owners()[i].uid == uid);
        }
    }
}

/// Adding an owner puts it behind the others and changes nothing else.
pub proof fn adding_an_owner_changes_the_owners_alone(
    meta: ObjectMetaView,
    owner: OwnerReferenceView,
)
    ensures
        meta.with_owner(owner).owner_references is Some,
        meta.with_owner(owner).owner_references->0.len() == meta.owners().len() + 1,
        meta.with_owner(owner).owner_references->0.last() == owner,
        (ObjectMetaView {
            owner_references: meta.owner_references,
            ..meta.with_owner(owner)
        }) == meta,
{
}

/// Metadata in the form in which an object is applied differs in nothing but the record of
/// who manages which field.
pub proof fn applying_forgets_the_managers_alone(meta: ObjectMetaView)
    ensures
        meta.unmanaged().managed_fields is None,
        (ObjectMetaView { managed_fields: meta.managed_fields, ..meta.unmanaged() }) == meta,
{
}

/// What the operator reads of metadata is understood as it is written: name, namespace,
/// uid, the mark of a deletion, and every owner in its place.
pub proof fn metadata_reads_as_written(meta: ObjectMeta)
    ensures
        meta@.name is Some <==> meta.name is Some,
        meta.name is Some ==> meta@.name->0 == meta.name->0@,
        meta@.generate_name is Some <==> meta.generate_name is Some,
        meta.generate_name is Some ==> meta@.generate_name->0 == meta.generate_name->0@,
        meta@.namespace is Some <==> meta.namespace is Some,
        meta.namespace is Some ==> meta@.namespace->0 == meta.namespace->0@,
        meta@.uid is Some <==> meta.uid is Some,
        meta.uid is Some ==> meta@.uid->0 == meta.uid->0@,
        meta@.deletion_timestamp == meta.deletion_timestamp,
        meta@.owner_references is Some <==> meta.owner_references is Some,
        meta.owner_references is Some ==> {
            &&& meta@.owner_references->0.len() == meta.owner_references->0.len()
            &&& forall|i: int|
                0 <= i < meta.owner_references->0.len() ==> (
                #[trigger] meta@.owner_references->0[i]).uid
                    == meta.owner_references->0[i].uid@ && meta@.owner_references->0[i].name
                    == meta.owner_references->0[i].name@
        },
        meta@.finalizers is Some <==> meta.finalizers is Some,
        meta.finalizers is Some ==> {
            &&& meta@.finalizers->0.len() == meta.finalizers->0.len()
            &&& forall|i: int|
                0 <= i < meta.finalizers->0.len() ==> #[trigger] meta@.finalizers->0[i]
                    == meta.finalizers->0[i]@
        },
{
}

} // verus!
