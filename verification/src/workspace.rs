//! The finished workspace model: packages and their buildable targets, held
//! in two append-only arenas and addressed by index types that cannot be
//! mixed up, plus the read accessors over the assembled graph.

use vstd::prelude::*;
use vstd::string::StringExecFns;

use crate::edition::Edition;
use crate::paths::{parent_of, parent_path};
use crate::strutil::{clone_strings, contains_lib, contains_seq, last_index_of};

verus! {

/// A stable index of a package entry. Indices are handed out in allocation
/// order and are never reused or invalidated.
#[derive(Debug, Clone, Copy, PartialEq, Eq, Hash, Structural)]
pub struct Package(pub usize);

/// A stable index of a target entry, distinct from package indices by type.
#[derive(Debug, Clone, Copy, PartialEq, Eq, Hash, Structural)]
pub struct Target(pub usize);

impl DeepView for Package {
    type V = int;

    open spec fn deep_view(&self) -> int {
        self.0 as int
    }
}

impl DeepView for Target {
    type V = int;

    open spec fn deep_view(&self) -> int {
        self.0 as int
    }
}

/// What kind of buildable unit a target is.
#[derive(Debug, Clone, Copy, PartialEq, Eq, Structural)]
pub enum TargetKind {
    Bin,
    /// Any kind of library crate type, the compiler-extension kind included.
    Lib,
    Example,
    Test,
    Bench,
    Other,
}

/// Classification of an ordered list of raw kind labels: the first label that
/// matches a rule decides, and a list without a recognized label is `Other`.
pub open spec fn target_kind_spec(kinds: Seq<Seq<char>>) -> TargetKind
    decreases kinds.len(),
{
    if kinds.len() == 0 {
        TargetKind::Other
    } else {
        let k = kinds[0];
        if k == "bin"@ {
            TargetKind::Bin
        } else if k == "test"@ {
            TargetKind::Test
        } else if k == "bench"@ {
            TargetKind::Bench
        } else if k == "example"@ {
            TargetKind::Example
        } else if k == "proc-macro"@ {
            TargetKind::Lib
        } else if contains_seq(k, "lib"@) {
            TargetKind::Lib
        } else {
            target_kind_spec(kinds.drop_first())
        }
    }
}

impl TargetKind {
    /// Classifies a list of raw kind labels, first matching label first.
    pub fn new(kinds: &Vec<String>) -> (r: TargetKind)
        ensures
            r == target_kind_spec(kinds.deep_view()),
    {
        let ghost all = kinds.deep_view();
        proof {
            assert(all.skip(0) =~= all);
        }
        let mut i: usize = 0;
        while i < kinds.len()
            invariant
                0 <= i <= kinds@.len(),
                all == kinds.deep_view(),
                all.len() == kinds@.len(),
                target_kind_spec(all) == target_kind_spec(all.skip(i as int)),
            decreases kinds@.len() - i,
        {
            let k = &kinds[i];
            proof {
                assert(all.skip(i as int)[0] == all[i as int]);
                assert(all[i as int] == kinds@[i as int]@);
            }
            if *k == "bin".to_owned() {
                return TargetKind::Bin;
            } else if *k == "test".to_owned() {
                return TargetKind::Test;
            } else if *k == "bench".to_owned() {
                return TargetKind::Bench;
            } else if *k == "example".to_owned() {
                return TargetKind::Example;
            } else if *k == "proc-macro".to_owned() {
                return TargetKind::Lib;
            } else if contains_lib(k) {
                return TargetKind::Lib;
            }
            proof {
                assert(all.skip(i as int).drop_first() =~= all.skip(i as int + 1));
            }
            i = i + 1;
        }
        proof {
            assert(all.skip(i as int) =~= Seq::<Seq<char>>::empty());
        }
        TargetKind::Other
    }
}

/// What the caller asks of the external query: feature selection, platform
/// filter, and whether build-script telemetry is collected.
#[derive(Clone, Debug, PartialEq, Eq)]
pub struct CargoConfig {
    /// Do not activate the `default` feature.
    pub no_default_features: bool,
    /// Activate all available features.
    pub all_features: bool,
    /// List of features to activate; ignored when `all_features` is set.
    pub features: Vec<String>,
    /// Run a check pass first to learn output directories and compile flags.
    pub load_out_dirs_from_check: bool,
    /// Target platform filter for the query.
    pub target: Option<String>,
}

impl Default for CargoConfig {
    fn default() -> (r: CargoConfig)
        ensures
            !r.no_default_features,
            r.all_features,
            r.features@ == Seq::<String>::empty(),
            !r.load_out_dirs_from_check,
            r.target is None,
    {
        CargoConfig {
            no_default_features: false,
            all_features: true,
            features: Vec::new(),
            load_out_dirs_from_check: false,
            target: None,
        }
    }
}

/// The one feature-selection mode handed to an external invocation.
/// All-features overrides no-default-features, which overrides an explicit
/// list; an empty explicit list means the default selection.
#[derive(Debug, Clone, PartialEq, Eq)]
pub enum FeatureSelection {
    AllFeatures,
    NoDefaultFeatures,
    OnlyFeatures(Vec<String>),
    DefaultFeatures,
}

impl CargoConfig {
    /// The feature-selection mode this configuration asks for, by the stated
    /// precedence.
    pub fn feature_selection(&self) -> (r: FeatureSelection)
        ensures
            self.all_features ==> r is AllFeatures,
            !self.all_features && self.no_default_features ==> r is NoDefaultFeatures,
            !self.all_features && !self.no_default_features && self.features@.len() > 0 ==> (r
                matches FeatureSelection::OnlyFeatures(f) && f@ == self.features@),
            !self.all_features && !self.no_default_features && self.features@.len() == 0 ==> r
                is DefaultFeatures,
    {
        if self.all_features {
            FeatureSelection::AllFeatures
        } else if self.no_default_features {
            FeatureSelection::NoDefaultFeatures
        } else if self.features.len() > 0 {
            FeatureSelection::OnlyFeatures(clone_strings(&self.features))
        } else {
            FeatureSelection::DefaultFeatures
        }
    }
}

/// A directed dependency edge: the target package plus the local alias the
/// depending package knows it by.
#[derive(Debug, Clone)]
pub struct PackageDependency {
    pub pkg: Package,
    pub name: String,
}

#[verifier::ext_equal]
pub ghost struct PackageDependencyV {
    pub pkg: int,
    pub name: Seq<char>,
}

impl DeepView for PackageDependency {
    type V = PackageDependencyV;

    open spec fn deep_view(&self) -> PackageDependencyV {
        PackageDependencyV { pkg: self.pkg.deep_view(), name: self.name@ }
    }
}

/// One package of the workspace.
#[derive(Debug, Clone)]
pub struct PackageData {
    pub version: String,
    pub name: String,
    pub manifest: String,
    pub targets: Vec<Target>,
    pub is_member: bool,
    pub dependencies: Vec<PackageDependency>,
    pub edition: Edition,
    pub features: Vec<String>,
    pub cfgs: Vec<String>,
    pub out_dir: Option<String>,
    pub proc_macro_dylib_path: Option<String>,
}

#[verifier::ext_equal]
pub ghost struct PackageDataV {
    pub version: Seq<char>,
    pub name: Seq<char>,
    pub manifest: Seq<char>,
    pub targets: Seq<int>,
    pub is_member: bool,
    pub dependencies: Seq<PackageDependencyV>,
    pub edition: Edition,
    pub features: Seq<Seq<char>>,
    pub cfgs: Seq<Seq<char>>,
    pub out_dir: Option<Seq<char>>,
    pub proc_macro_dylib_path: Option<Seq<char>>,
}

impl DeepView for PackageData {
    type V = PackageDataV;

    open spec fn deep_view(&self) -> PackageDataV {
        PackageDataV {
            version: self.version@,
            name: self.name@,
            manifest: self.manifest@,
            targets: self.targets.deep_view(),
            is_member: self.is_member,
            dependencies: self.dependencies.deep_view(),
            edition: self.edition,
            features: self.features.deep_view(),
            cfgs: self.cfgs.deep_view(),
            out_dir: self.out_dir.deep_view(),
            proc_macro_dylib_path: self.proc_macro_dylib_path.deep_view(),
        }
    }
}

/// One buildable target of a package.
#[derive(Debug, Clone)]
pub struct TargetData {
    pub package: Package,
    pub name: String,
    pub root: String,
    pub kind: TargetKind,
    pub is_proc_macro: bool,
}

#[verifier::ext_equal]
pub ghost struct TargetDataV {
    pub package: int,
    pub name: Seq<char>,
    pub root: Seq<char>,
    pub kind: TargetKind,
    pub is_proc_macro: bool,
}

impl DeepView for TargetData {
    type V = TargetDataV;

    open spec fn deep_view(&self) -> TargetDataV {
        TargetDataV {
            package: self.package.deep_view(),
            name: self.name@,
            root: self.root@,
            kind: self.kind,
            is_proc_macro: self.is_proc_macro,
        }
    }
}

impl PackageData {
    /// The directory holding the package's manifest file; the manifest path
    /// must name a file inside a directory.
    pub fn root(&self) -> (r: String)
        requires
            last_index_of(self.manifest@, '/') is Some,
        ensures
            r@ == parent_of(self.manifest@),
    {
        parent_path(&self.manifest)
    }
}

/// The immutable workspace graph: the package arena, the target arena, and
/// the workspace root path the external tool reported.
#[derive(Debug, Clone)]
pub struct CargoWorkspace {
    pub packages: Vec<PackageData>,
    pub targets: Vec<TargetData>,
    pub workspace_root: String,
}

#[verifier::ext_equal]
pub ghost struct CargoWorkspaceV {
    pub packages: Seq<PackageDataV>,
    pub targets: Seq<TargetDataV>,
    pub workspace_root: Seq<char>,
}

impl DeepView for CargoWorkspace {
    type V = CargoWorkspaceV;

    open spec fn deep_view(&self) -> CargoWorkspaceV {
        CargoWorkspaceV {
            packages: self.packages.deep_view(),
            targets: self.targets.deep_view(),
            workspace_root: self.workspace_root@,
        }
    }
}

/// Every index stored in the graph refers to a live entry of the same
/// workspace: target owners, package target lists, and dependency edges.
pub open spec fn wf_workspace(v: CargoWorkspaceV) -> bool {
    &&& forall|t: int|
        0 <= t < v.targets.len() ==> 0 <= (#[trigger] v.targets[t]).package < v.packages.len()
    &&& forall|p: int, j: int|
        0 <= p < v.packages.len() && 0 <= j < v.packages[p].targets.len() ==> 0 <= (
        #[trigger] v.packages[p].targets[j]) < v.targets.len()
    &&& forall|p: int, j: int|
        0 <= p < v.packages.len() && 0 <= j < v.packages[p].dependencies.len() ==> 0 <= (
        #[trigger] v.packages[p].dependencies[j]).pkg < v.packages.len()
}

/// How many packages of the workspace carry the given name.
pub open spec fn name_count(pkgs: Seq<PackageDataV>, name: Seq<char>) -> int
    decreases pkgs.len(),
{
    if pkgs.len() == 0 {
        0
    } else {
        name_count(pkgs.drop_last(), name) + if pkgs.last().name == name {
            1int
        } else {
            0int
        }
    }
}

/// The name is carried by exactly one package of the workspace.
pub open spec fn is_unique_spec(v: CargoWorkspaceV, name: Seq<char>) -> bool {
    name_count(v.packages, name) == 1
}

/// The external disambiguating reference of a package: its bare name when
/// unique in the workspace, else `name:version`.
pub open spec fn package_flag_spec(v: CargoWorkspaceV, p: PackageDataV) -> Seq<char> {
    if is_unique_spec(v, p.name) {
        p.name
    } else {
        p.name + ":"@ + p.version
    }
}

/// The first target of `tgts`, in list order, whose root source file is
/// `root`.
pub open spec fn first_target_in(v: CargoWorkspaceV, tgts: Seq<int>, root: Seq<char>) -> Option<
    int,
>
    decreases tgts.len(),
{
    if tgts.len() == 0 {
        None
    } else if 0 <= tgts[0] < v.targets.len() && v.targets[tgts[0]].root == root {
        Some(tgts[0])
    } else {
        first_target_in(v, tgts.drop_first(), root)
    }
}

/// The first target with the given root source file, walking packages in
/// allocation order from `p` and each package's target list in order.
pub open spec fn target_by_root_from(v: CargoWorkspaceV, p: int, root: Seq<char>) -> Option<int>
    decreases v.packages.len() - p,
{
    if p < 0 || p >= v.packages.len() {
        None
    } else {
        match first_target_in(v, v.packages[p].targets, root) {
            Some(t) => Some(t),
            None => target_by_root_from(v, p + 1, root),
        }
    }
}

pub open spec fn target_by_root_spec(v: CargoWorkspaceV, root: Seq<char>) -> Option<int> {
    target_by_root_from(v, 0, root)
}

impl CargoWorkspace {
    /// All package indices, in allocation order.
    pub fn packages(&self) -> (r: Vec<Package>)
        ensures
            r.deep_view() == Seq::new(self.deep_view().packages.len() as nat, |i: int| i),
    {
        let mut r: Vec<Package> = Vec::new();
        let mut i: usize = 0;
        while i < self.packages.len()
            invariant
                0 <= i <= self.packages@.len(),
                r@.len() == i,
                forall|k: int| 0 <= k < i ==> (#[trigger] r@[k]).0 == k,
            decreases self.packages@.len() - i,
        {
            r.push(Package(i));
            i = i + 1;
        }
        proof {
            assert forall|k: int| 0 <= k < r@.len() implies #[trigger] r.deep_view()[k] == k by {
                assert(r.deep_view()[k] == r@[k].deep_view());
            }
            assert(r.deep_view() =~= Seq::new(self.deep_view().packages.len() as nat, |k: int| k));
        }
        r
    }

    /// The package entry at an index.
    pub fn package(&self, p: Package) -> (r: &PackageData)
        requires
            p.0 < self.deep_view().packages.len(),
        ensures
            *r == self.packages@[p.0 as int],
            r.deep_view() == self.deep_view().packages[p.0 as int],
    {
        &self.packages[p.0]
    }

    /// The target entry at an index.
    pub fn target(&self, t: Target) -> (r: &TargetData)
        requires
            t.0 < self.deep_view().targets.len(),
        ensures
            *r == self.targets@[t.0 as int],
            r.deep_view() == self.deep_view().targets[t.0 as int],
    {
        &self.targets[t.0]
    }

    /// The number of package entries.
    pub fn package_count(&self) -> (r: usize)
        ensures
            r == self.deep_view().packages.len(),
    {
        self.packages.len()
    }

    /// The number of target entries.
    pub fn target_count(&self) -> (r: usize)
        ensures
            r == self.deep_view().targets.len(),
    {
        self.targets.len()
    }

    /// The workspace root path the external tool reported.
    pub fn workspace_root(&self) -> (r: &String)
        ensures
            r@ == self.deep_view().workspace_root,
    {
        &self.workspace_root
    }

    /// The first target whose root source file is `root`, in package
    /// allocation order and target list order, if any.
    pub fn target_by_root(&self, root: &String) -> (r: Option<Target>)
        requires
            wf_workspace(self.deep_view()),
        ensures
            match r {
                Some(t) => target_by_root_spec(self.deep_view(), root@) == Some(t.0 as int),
                None => target_by_root_spec(self.deep_view(), root@) is None,
            },
    {
        let ghost v = self.deep_view();
        let mut p: usize = 0;
        while p < self.packages.len()
            invariant
                wf_workspace(v),
                v == self.deep_view(),
                0 <= p <= v.packages.len(),
                v.packages.len() == self.packages@.len(),
                target_by_root_spec(v, root@) == target_by_root_from(v, p as int, root@),
            decreases self.packages@.len() - p,
        {
            let tgts = &self.packages[p].targets;
            let ghost tv = v.packages[p as int].targets;
            proof {
                assert(tv.skip(0) =~= tv);
                assert(tv == self.packages@[p as int].targets.deep_view());
            }
            let mut j: usize = 0;
            while j < tgts.len()
                invariant
                    wf_workspace(v),
                    v == self.deep_view(),
                    0 <= p < v.packages.len(),
                    v.packages.len() == self.packages@.len(),
                    v.targets.len() == self.targets@.len(),
                    tv == v.packages[p as int].targets,
                    tv == tgts.deep_view(),
                    tv.len() == tgts@.len(),
                    0 <= j <= tv.len(),
                    target_by_root_spec(v, root@) == target_by_root_from(v, p as int, root@),
                    first_target_in(v, tv, root@) == first_target_in(
                        v,
                        tv.skip(j as int),
                        root@,
                    ),
                decreases tgts@.len() - j,
            {
                let t = tgts[j];
                proof {
                    assert(tv.skip(j as int)[0] == tv[j as int]);
                    assert(tv[j as int] == tgts@[j as int].deep_view());
                    assert(t.0 as int == tv[j as int]);
                    assert(v.targets[t.0 as int] == self.targets@[t.0 as int].deep_view());
                }
                if self.targets[t.0].root == *root {
                    proof {
                        assert(first_target_in(v, tv.skip(j as int), root@) == Some(t.0 as int));
                    }
                    return Some(t);
                }
                proof {
                    assert(tv.skip(j as int).drop_first() =~= tv.skip(j as int + 1));
                }
                j = j + 1;
            }
            proof {
                assert(tv.skip(tv.len() as int) =~= Seq::<int>::empty());
                assert(first_target_in(v, tv, root@) is None);
                assert(target_by_root_from(v, p as int, root@) == target_by_root_from(
                    v,
                    p as int + 1,
                    root@,
                ));
            }
            p = p + 1;
        }
        None
    }

    /// The bare package name when it is unique in this workspace, else
    /// `name:version`.
    pub fn package_flag(&self, package: &PackageData) -> (r: String)
        ensures
            r@ == package_flag_spec(self.deep_view(), package.deep_view()),
    {
        if self.is_unique(&package.name) {
            package.name.clone()
        } else {
            let mut r = package.name.clone();
            r.append(":");
            r.append(package.version.as_str());
            proof {
                assert(r@ =~= package.deep_view().name + ":"@ + package.deep_view().version);
            }
            r
        }
    }

    /// Exactly one package of this workspace carries `name`.
    fn is_unique(&self, name: &String) -> (r: bool)
        ensures
            r == is_unique_spec(self.deep_view(), name@),
    {
        let ghost pkgs = self.deep_view().packages;
        let mut count: usize = 0;
        let mut i: usize = 0;
        while i < self.packages.len()
            invariant
                pkgs == self.deep_view().packages,
                pkgs.len() == self.packages@.len(),
                0 <= i <= pkgs.len(),
                count <= i,
                count == name_count(pkgs.subrange(0, i as int), name@),
            decreases self.packages@.len() - i,
        {
            proof {
                assert(pkgs.subrange(0, i as int + 1).drop_last() =~= pkgs.subrange(0, i as int));
                assert(pkgs.subrange(0, i as int + 1).last() == pkgs[i as int]);
            }
            if self.packages[i].name == *name {
                count = count + 1;
            }
            i = i + 1;
        }
        proof {
            assert(pkgs.subrange(0, pkgs.len() as int) =~= pkgs);
        }
        count == 1
    }
}

} // verus!
