//! Lookups in a snapshot of the extension registry.

use vstd::prelude::*;

use crate::capability::{CapabilityDescriptor, CapabilityDescriptorView, CapabilityVisibility};
use crate::lookup::{
    first_where, lemma_first_where_at, lemma_first_where_none, lemma_first_where_position,
};
use crate::package::{
    CapabilityManifest, CapabilityManifestView, ExtensionPackage, ExtensionPackageView,
};

verus! {

/// A snapshot of the extension registry.
///
/// `capabilities` are the published descriptors in registry order; `packages` are
/// the registered extensions with their manifests.
#[derive(Debug, PartialEq, Eq)]
pub struct ExtensionRegistry {
    pub capabilities: Vec<CapabilityDescriptor>,
    pub packages: Vec<ExtensionPackage>,
}

/// The mathematical value of a [`ExtensionRegistry`].
#[verifier::ext_equal]
pub struct ExtensionRegistryView {
    pub capabilities: Seq<CapabilityDescriptorView>,
    pub packages: Seq<ExtensionPackageView>,
}

impl View for ExtensionRegistry {
    type V = ExtensionRegistryView;

    open spec fn view(&self) -> ExtensionRegistryView {
        ExtensionRegistryView {
            capabilities: self.capabilities.deep_view(),
            packages: self.packages.deep_view(),
        }
    }
}

impl DeepView for ExtensionRegistry {
    type V = ExtensionRegistryView;

    open spec fn deep_view(&self) -> ExtensionRegistryView {
        self@
    }
}

impl Clone for ExtensionRegistry {
    fn clone(&self) -> (r: Self)
        ensures
            r@ == self@,
    {
        let r = ExtensionRegistry {
            capabilities: self.capabilities.clone(),
            packages: self.packages.clone(),
        };
        assert(r.capabilities.deep_view() =~= self.capabilities.deep_view());
        assert(r.packages.deep_view() =~= self.packages.deep_view());
        r
    }
}

impl ExtensionRegistryView {
    /// The published descriptor of a capability.
    pub open spec fn capability(self, id: Seq<char>) -> Option<CapabilityDescriptorView> {
        first_where(self.capabilities, |d: CapabilityDescriptorView| d.id == id)
    }

    /// The registered extension with an id.
    pub open spec fn extension(self, id: Seq<char>) -> Option<ExtensionPackageView> {
        first_where(self.packages, |p: ExtensionPackageView| p.id == id)
    }

    /// The visibility that a manifest declares for a capability.
    pub open spec fn visibility(self, id: Seq<char>) -> Option<CapabilityVisibility> {
        match first_where(self.packages, |p: ExtensionPackageView| p.declaration(id) is Some) {
            Some(package) => Some(package.declaration(id)->0.visibility),
            None => None,
        }
    }
}

impl ExtensionPackageView {
    /// The manifest declaration of a capability.
    pub open spec fn declaration(self, id: Seq<char>) -> Option<CapabilityManifestView> {
        first_where(self.manifest.capabilities, |c: CapabilityManifestView| c.id == id)
    }
}

impl ExtensionPackage {
    /// The manifest declaration of a capability.
    pub fn declaration(&self, id: &String) -> (r: Option<&CapabilityManifest>)
        ensures
            r.deep_view() == self@.declaration(id@),
    {
        let declared = &self.manifest.capabilities;
        let ghost views = declared.deep_view();
        let ghost wanted = |c: CapabilityManifestView| c.id == id@;
        let mut i: usize = 0;
        while i < declared.len()
            invariant
                views == declared.deep_view(),
                views == self@.manifest.capabilities,
                wanted == (|c: CapabilityManifestView| c.id == id@),
                i <= declared@.len(),
                forall|k: int| 0 <= k < i ==> !wanted(#[trigger] views[k]),
            decreases declared@.len() - i,
        {
            assert(views[i as int] == declared@[i as int]@);
            if declared[i].id == *id {
                proof {
                    lemma_first_where_at(views, wanted, i as int);
                }
                return Some(&declared[i]);
            }
            i = i + 1;
        }
        proof {
            lemma_first_where_none(views, wanted);
        }
        None
    }
}

impl ExtensionRegistry {
    /// The published descriptor of a capability.
    pub fn get_capability(&self, id: &String) -> (r: Option<&CapabilityDescriptor>)
        ensures
            r.deep_view() == self@.capability(id@),
    {
        let ghost views = self.capabilities.deep_view();
        let ghost wanted = |d: CapabilityDescriptorView| d.id == id@;
        let mut i: usize = 0;
        while i < self.capabilities.len()
            invariant
                views == self.capabilities.deep_view(),
                wanted == (|d: CapabilityDescriptorView| d.id == id@),
                i <= self.capabilities@.len(),
                forall|k: int| 0 <= k < i ==> !wanted(#[trigger] views[k]),
            decreases self.capabilities@.len() - i,
        {
            assert(views[i as int] == self.capabilities@[i as int]@);
            if self.capabilities[i].id == *id {
                proof {
                    lemma_first_where_at(views, wanted, i as int);
                }
                return Some(&self.capabilities[i]);
            }
            i = i + 1;
        }
        proof {
            lemma_first_where_none(views, wanted);
        }
        None
    }

    /// The registered extension with an id.
    pub fn get_extension(&self, id: &String) -> (r: Option<&ExtensionPackage>)
        ensures
            r.deep_view() == self@.extension(id@),
    {
        let ghost views = self.packages.deep_view();
        let ghost wanted = |p: ExtensionPackageView| p.id == id@;
        let mut i: usize = 0;
        while i < self.packages.len()
            invariant
                views == self.packages.deep_view(),
                wanted == (|p: ExtensionPackageView| p.id == id@),
                i <= self.packages@.len(),
                forall|k: int| 0 <= k < i ==> !wanted(#[trigger] views[k]),
            decreases self.packages@.len() - i,
        {
            assert(views[i as int] == self.packages@[i as int]@);
            if self.packages[i].id == *id {
                proof {
                    lemma_first_where_at(views, wanted, i as int);
                }
                return Some(&self.packages[i]);
            }
            i = i + 1;
        }
        proof {
            lemma_first_where_none(views, wanted);
        }
        None
    }

    /// The visibility that a manifest declares for a capability.
    pub fn capability_visibility(&self, id: &String) -> (r: Option<CapabilityVisibility>)
        ensures
            r == self@.visibility(id@),
    {
        let ghost views = self.packages.deep_view();
        let ghost declares = |p: ExtensionPackageView| p.declaration(id@) is Some;
        let mut i: usize = 0;
        while i < self.packages.len()
            invariant
                views == self.packages.deep_view(),
                declares == (|p: ExtensionPackageView| p.declaration(id@) is Some),
                i <= self.packages@.len(),
                forall|k: int| 0 <= k < i ==> !declares(#[trigger] views[k]),
            decreases self.packages@.len() - i,
        {
            assert(views[i as int] == self.packages@[i as int]@);
            if let Some(declaration) = self.packages[i].declaration(id) {
                proof {
                    lemma_first_where_at(views, declares, i as int);
                }
                return Some(declaration.visibility);
            }
            i = i + 1;
        }
        proof {
            lemma_first_where_none(views, declares);
        }
        None
    }
}

/// A capability is looked up by its id among all published descriptors, at
/// whatever position it stands; the first of several with one id is found.
pub proof fn law_capability_is_found_by_its_id(registry: ExtensionRegistryView, id: Seq<char>)
    ensures
        match registry.capability(id) {
            Some(found) => exists|at: int|
                0 <= at < registry.capabilities.len() && #[trigger] registry.capabilities[at]
                    == found && found.id == id && forall|k: int|
                    0 <= k < at ==> (#[trigger] registry.capabilities[k]).id != id,
            None => forall|k: int|
                0 <= k < registry.capabilities.len() ==> (#[trigger] registry.capabilities[k]).id
                    != id,
        },
{
    lemma_first_where_position(
        registry.capabilities,
        |d: CapabilityDescriptorView| d.id == id,
    );
}

/// An extension is looked up by its id among all registered packages, at whatever
/// position it stands; the first of several with one id is found.
pub proof fn law_extension_is_found_by_its_id(registry: ExtensionRegistryView, id: Seq<char>)
    ensures
        match registry.extension(id) {
            Some(found) => exists|at: int|
                0 <= at < registry.packages.len() && #[trigger] registry.packages[at] == found
                    && found.id == id && forall|k: int|
                    0 <= k < at ==> (#[trigger] registry.packages[k]).id != id,
            None => forall|k: int|
                0 <= k < registry.packages.len() ==> (#[trigger] registry.packages[k]).id != id,
        },
{
    lemma_first_where_position(registry.packages, |p: ExtensionPackageView| p.id == id);
}

/// A declaration is looked up by its id among all of a manifest, at whatever
/// position it stands; the first of several with one id is found.
pub proof fn law_declaration_is_found_by_its_id(package: ExtensionPackageView, id: Seq<char>)
    ensures
        ({
            let declared = package.manifest.capabilities;
            match package.declaration(id) {
                Some(found) => exists|at: int|
                    0 <= at < declared.len() && #[trigger] declared[at] == found && found.id == id
                        && forall|k: int| 0 <= k < at ==> (#[trigger] declared[k]).id != id,
                None => forall|k: int|
                    0 <= k < declared.len() ==> (#[trigger] declared[k]).id != id,
            }
        }),
{
    lemma_first_where_position(
        package.manifest.capabilities,
        |c: CapabilityManifestView| c.id == id,
    );
}

/// The visibility of a capability is the one that the first package to declare it
/// declares. A capability that no package declares has none.
pub proof fn law_visibility_is_the_declared_one(registry: ExtensionRegistryView, id: Seq<char>)
    ensures
        match registry.visibility(id) {
            Some(visibility) => exists|at: int|
                0 <= at < registry.packages.len() && (#[trigger] registry.packages[at]).declaration(
                    id,
                ) is Some && registry.packages[at].declaration(id)->0.visibility == visibility
                    && forall|k: int|
                    0 <= k < at ==> (#[trigger] registry.packages[k]).declaration(id) is None,
            None => forall|k: int|
                0 <= k < registry.packages.len() ==> (
                #[trigger] registry.packages[k]).declaration(id) is None,
        },
{
    lemma_first_where_position(
        registry.packages,
        |p: ExtensionPackageView| p.declaration(id) is Some,
    );
}

} // verus!
