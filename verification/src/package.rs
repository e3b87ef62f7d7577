//! Extension packages as the host's registry presents them.

use vstd::prelude::*;

use crate::capability::{
    CapabilityDescriptor, CapabilityDescriptorView, CapabilityVisibility,
};
use crate::ids::{CapabilityId, ExtensionId};

verus! {

/// Where a manifest came from.
#[derive(Debug, Clone, Copy, PartialEq, Eq, Structural)]
pub enum ManifestSource {
    HostBundled,
    InstalledLocal,
    UserRegistered,
}

/// Runtime section of a manifest.
#[derive(Debug, PartialEq, Eq)]
pub enum ExtensionRuntime {
    /// A Model Context Protocol server.
    Mcp { transport: String, command: Option<String>, args: Vec<String>, url: Option<String> },
    /// Any other runtime.
    Other,
}

/// The mathematical value of a [`ExtensionRuntime`].
#[verifier::ext_equal]
pub enum ExtensionRuntimeView {
    Mcp { transport: Seq<char>, command: Option<Seq<char>>, args: Seq<Seq<char>>, url: Option<Seq<char>> },
    Other,
}

impl View for ExtensionRuntime {
    type V = ExtensionRuntimeView;

    open spec fn view(&self) -> ExtensionRuntimeView {
        match self {
            ExtensionRuntime::Mcp { transport, command, args, url } => ExtensionRuntimeView::Mcp {
                transport: transport@,
                command: command.deep_view(),
                args: args.deep_view(),
                url: url.deep_view(),
            },
            ExtensionRuntime::Other => ExtensionRuntimeView::Other,
        }
    }
}

impl DeepView for ExtensionRuntime {
    type V = ExtensionRuntimeView;

    open spec fn deep_view(&self) -> ExtensionRuntimeView {
        self@
    }
}

impl Clone for ExtensionRuntime {
    fn clone(&self) -> (r: Self)
        ensures
            r@ == self@,
    {
        match self {
            ExtensionRuntime::Mcp { transport, command, args, url } => {
                let command_copy = command.clone();
                assert(command_copy.deep_view() =~= command.deep_view());
                let args_copy = args.clone();
                assert(args_copy.deep_view() =~= args.deep_view());
                let url_copy = url.clone();
                assert(url_copy.deep_view() =~= url.deep_view());
                ExtensionRuntime::Mcp {
                    transport: transport.clone(),
                    command: command_copy,
                    args: args_copy,
                    url: url_copy,
                }
            },
            ExtensionRuntime::Other => ExtensionRuntime::Other,
        }
    }
}

/// Manifest declaration of one capability.
#[derive(Debug, PartialEq, Eq)]
pub struct CapabilityManifest {
    pub id: CapabilityId,
    pub visibility: CapabilityVisibility,
    pub input_schema_ref: String,
}

/// The mathematical value of a [`CapabilityManifest`].
#[verifier::ext_equal]
pub struct CapabilityManifestView {
    pub id: Seq<char>,
    pub visibility: CapabilityVisibility,
    pub input_schema_ref: Seq<char>,
}

impl View for CapabilityManifest {
    type V = CapabilityManifestView;

    open spec fn view(&self) -> CapabilityManifestView {
        CapabilityManifestView {
            id: self.id@,
            visibility: self.visibility,
            input_schema_ref: self.input_schema_ref@,
        }
    }
}

impl DeepView for CapabilityManifest {
    type V = CapabilityManifestView;

    open spec fn deep_view(&self) -> CapabilityManifestView {
        self@
    }
}

impl Clone for CapabilityManifest {
    fn clone(&self) -> (r: Self)
        ensures
            r@ == self@,
    {
        CapabilityManifest {
            id: self.id.clone(),
            visibility: self.visibility,
            input_schema_ref: self.input_schema_ref.clone(),
        }
    }
}

/// The parts of an extension manifest that decisions read.
#[derive(Debug, PartialEq, Eq)]
pub struct ExtensionManifest {
    pub source: ManifestSource,
    pub runtime: ExtensionRuntime,
    pub capabilities: Vec<CapabilityManifest>,
}

/// The mathematical value of a [`ExtensionManifest`].
#[verifier::ext_equal]
pub struct ExtensionManifestView {
    pub source: ManifestSource,
    pub runtime: ExtensionRuntimeView,
    pub capabilities: Seq<CapabilityManifestView>,
}

impl View for ExtensionManifest {
    type V = ExtensionManifestView;

    open spec fn view(&self) -> ExtensionManifestView {
        ExtensionManifestView {
            source: self.source,
            runtime: self.runtime@,
            capabilities: self.capabilities.deep_view(),
        }
    }
}

impl DeepView for ExtensionManifest {
    type V = ExtensionManifestView;

    open spec fn deep_view(&self) -> ExtensionManifestView {
        self@
    }
}

impl Clone for ExtensionManifest {
    fn clone(&self) -> (r: Self)
        ensures
            r@ == self@,
    {
        let r = ExtensionManifest {
            source: self.source,
            runtime: self.runtime.clone(),
            capabilities: self.capabilities.clone(),
        };
        assert(r.capabilities.deep_view() =~= self.capabilities.deep_view());
        r
    }
}

/// A registered extension.
#[derive(Debug, PartialEq, Eq)]
pub struct ExtensionPackage {
    pub id: ExtensionId,
    /// Virtual path of the package.
    pub root: String,
    pub manifest: ExtensionManifest,
    pub manifest_digest: Option<String>,
    /// Descriptors of its capabilities.
    pub capabilities: Vec<CapabilityDescriptor>,
    /// Whether the registry classifies the package as a hosted MCP server
    /// reached over HTTP.
    pub hosted_http_mcp: bool,
}

/// The mathematical value of a [`ExtensionPackage`].
#[verifier::ext_equal]
pub struct ExtensionPackageView {
    pub id: Seq<char>,
    pub root: Seq<char>,
    pub manifest: ExtensionManifestView,
    pub manifest_digest: Option<Seq<char>>,
    pub capabilities: Seq<CapabilityDescriptorView>,
    pub hosted_http_mcp: bool,
}

impl View for ExtensionPackage {
    type V = ExtensionPackageView;

    open spec fn view(&self) -> ExtensionPackageView {
        ExtensionPackageView {
            id: self.id@,
            root: self.root@,
            manifest: self.manifest@,
            manifest_digest: self.manifest_digest.deep_view(),
            capabilities: self.capabilities.deep_view(),
            hosted_http_mcp: self.hosted_http_mcp,
        }
    }
}

impl DeepView for ExtensionPackage {
    type V = ExtensionPackageView;

    open spec fn deep_view(&self) -> ExtensionPackageView {
        self@
    }
}

impl Clone for ExtensionPackage {
    fn clone(&self) -> (r: Self)
        ensures
            r@ == self@,
    {
        let r = ExtensionPackage {
            id: self.id.clone(),
            root: self.root.clone(),
            manifest: self.manifest.clone(),
            manifest_digest: self.manifest_digest.clone(),
            capabilities: self.capabilities.clone(),
            hosted_http_mcp: self.hosted_http_mcp,
        };
        assert(r.manifest_digest.deep_view() =~= self.manifest_digest.deep_view());
        assert(r.capabilities.deep_view() =~= self.capabilities.deep_view());
        r
    }
}

} // verus!
