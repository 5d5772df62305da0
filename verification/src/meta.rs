//! The plain records of the primary external query's response: the package
//! and target listing, the workspace member set, and the resolved dependency
//! graph, exactly as the workspace builder consumes them.

use vstd::prelude::*;

verus! {

/// One raw target record of a package.
#[derive(Debug, Clone)]
pub struct MetaTarget {
    pub name: String,
    pub kind: Vec<String>,
    pub src_path: String,
}

#[verifier::ext_equal]
pub ghost struct MetaTargetV {
    pub name: Seq<char>,
    pub kind: Seq<Seq<char>>,
    pub src_path: Seq<char>,
}

impl DeepView for MetaTarget {
    type V = MetaTargetV;

    open spec fn deep_view(&self) -> MetaTargetV {
        MetaTargetV { name: self.name@, kind: self.kind.deep_view(), src_path: self.src_path@ }
    }
}

/// One raw package record.
#[derive(Debug, Clone)]
pub struct MetaPackage {
    pub id: String,
    pub name: String,
    pub version: String,
    pub edition: String,
    pub manifest_path: String,
    pub targets: Vec<MetaTarget>,
}

#[verifier::ext_equal]
pub ghost struct MetaPackageV {
    pub id: Seq<char>,
    pub name: Seq<char>,
    pub version: Seq<char>,
    pub edition: Seq<char>,
    pub manifest_path: Seq<char>,
    pub targets: Seq<MetaTargetV>,
}

impl DeepView for MetaPackage {
    type V = MetaPackageV;

    open spec fn deep_view(&self) -> MetaPackageV {
        MetaPackageV {
            id: self.id@,
            name: self.name@,
            version: self.version@,
            edition: self.edition@,
            manifest_path: self.manifest_path@,
            targets: self.targets.deep_view(),
        }
    }
}

/// One edge of a dependency-graph node: the target package's identifier and
/// the local alias the depending package uses.
#[derive(Debug, Clone)]
pub struct ResolveDep {
    pub pkg: String,
    pub name: String,
}

#[verifier::ext_equal]
pub ghost struct ResolveDepV {
    pub pkg: Seq<char>,
    pub name: Seq<char>,
}

impl DeepView for ResolveDep {
    type V = ResolveDepV;

    open spec fn deep_view(&self) -> ResolveDepV {
        ResolveDepV { pkg: self.pkg@, name: self.name@ }
    }
}

/// One node of the resolved dependency graph.
#[derive(Debug, Clone)]
pub struct ResolveNode {
    pub id: String,
    pub features: Vec<String>,
    pub deps: Vec<ResolveDep>,
}

#[verifier::ext_equal]
pub ghost struct ResolveNodeV {
    pub id: Seq<char>,
    pub features: Seq<Seq<char>>,
    pub deps: Seq<ResolveDepV>,
}

impl DeepView for ResolveNode {
    type V = ResolveNodeV;

    open spec fn deep_view(&self) -> ResolveNodeV {
        ResolveNodeV {
            id: self.id@,
            features: self.features.deep_view(),
            deps: self.deps.deep_view(),
        }
    }
}

/// The whole response of the primary external query.
#[derive(Debug, Clone)]
pub struct CargoMetadata {
    pub packages: Vec<MetaPackage>,
    pub workspace_members: Vec<String>,
    pub nodes: Vec<ResolveNode>,
    pub workspace_root: String,
}

#[verifier::ext_equal]
pub ghost struct CargoMetadataV {
    pub packages: Seq<MetaPackageV>,
    pub workspace_members: Seq<Seq<char>>,
    pub nodes: Seq<ResolveNodeV>,
    pub workspace_root: Seq<char>,
}

impl DeepView for CargoMetadata {
    type V = CargoMetadataV;

    open spec fn deep_view(&self) -> CargoMetadataV {
        CargoMetadataV {
            packages: self.packages.deep_view(),
            workspace_members: self.workspace_members.deep_view(),
            nodes: self.nodes.deep_view(),
            workspace_root: self.workspace_root@,
        }
    }
}

} // verus!
