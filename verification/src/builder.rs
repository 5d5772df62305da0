//! The workspace builder: turns the primary query's records and the optional
//! build-pass side tables into the finished workspace graph, resolving the
//! dependency graph and tolerating unresolvable nodes and edges.

use vstd::prelude::*;

use crate::edition::{parse_edition_spec, Edition};
use crate::extern_resources::{last_cfgs_for, last_path_for, ExternResources, ExternResourcesV};
use crate::meta::{CargoMetadata, CargoMetadataV, MetaPackage, MetaPackageV, ResolveDepV};
use crate::strutil::{append_strings, contains_string};
use crate::workspace::{
    target_kind_spec, wf_workspace, CargoWorkspace, CargoWorkspaceV, Package, PackageData,
    PackageDataV, PackageDependency, PackageDependencyV, Target, TargetData, TargetDataV,
    TargetKind,
};

verus! {

/// Why workspace construction failed.
#[derive(Debug, Clone, PartialEq, Eq)]
pub enum WorkspaceError {
    /// An external invocation failed to run, exited with an error, or its
    /// top-level response could not be read.
    Fetch(String),
    /// A package's edition identifier names no recognized edition; the
    /// offending identifier is carried along.
    EditionParse(String),
}

/// A non-fatal inconsistency met while walking the dependency graph: a node
/// or an edge referenced a package identifier absent from the package list.
#[derive(Debug, Clone, PartialEq, Eq)]
pub enum BuildWarning {
    UnresolvedNode(String),
    UnresolvedDep(String),
}

pub ghost enum BuildWarningV {
    UnresolvedNode(Seq<char>),
    UnresolvedDep(Seq<char>),
}

impl DeepView for BuildWarning {
    type V = BuildWarningV;

    open spec fn deep_view(&self) -> BuildWarningV {
        match self {
            BuildWarning::UnresolvedNode(id) => BuildWarningV::UnresolvedNode(id@),
            BuildWarning::UnresolvedDep(id) => BuildWarningV::UnresolvedDep(id@),
        }
    }
}

/// The package index an identifier resolves to among the first `n` package
/// records: the last record with that identifier wins, as an identifier table
/// filled in record order would have it.
pub open spec fn resolve_id(pkgs: Seq<MetaPackageV>, n: int, id: Seq<char>) -> Option<int>
    decreases n,
{
    if n <= 0 {
        None
    } else if pkgs[n - 1].id == id {
        Some(n - 1)
    } else {
        resolve_id(pkgs, n - 1, id)
    }
}

/// The package index an identifier resolves to, over all package records.
pub open spec fn pkg_index_of(pkgs: Seq<MetaPackageV>, id: Seq<char>) -> Option<int> {
    resolve_id(pkgs, pkgs.len() as int, id)
}

/// Every recognized identifier resolves to a package index in range.
pub proof fn lemma_resolve_range(pkgs: Seq<MetaPackageV>, n: int, id: Seq<char>)
    requires
        n <= pkgs.len(),
    ensures
        match resolve_id(pkgs, n, id) {
            Some(p) => 0 <= p < n && pkgs[p].id == id,
            None => true,
        },
    decreases n,
{
    if n > 0 && pkgs[n - 1].id != id {
        lemma_resolve_range(pkgs, n - 1, id);
    }
}

/// How many targets the first `i` package records carry together; the target
/// entries of record `i` begin at this arena index.
pub open spec fn tgt_base(pkgs: Seq<MetaPackageV>, i: int) -> int
    decreases i,
{
    if i <= 0 {
        0
    } else {
        tgt_base(pkgs, i - 1) + pkgs[i - 1].targets.len()
    }
}

/// Target bases grow with the record index.
pub proof fn lemma_tgt_base_mono(pkgs: Seq<MetaPackageV>, i: int, n: int)
    requires
        0 <= i <= n,
    ensures
        tgt_base(pkgs, i) <= tgt_base(pkgs, n),
        i < n ==> tgt_base(pkgs, i) + pkgs[i].targets.len() <= tgt_base(pkgs, n),
    decreases n,
{
    if i < n {
        lemma_tgt_base_mono(pkgs, i, n - 1);
    }
}

/// The target entry allocated for target `j` of package record `i`.
pub open spec fn built_target(m: CargoMetadataV, i: int, j: int) -> TargetDataV {
    let t = m.packages[i].targets[j];
    TargetDataV {
        package: i,
        name: t.name,
        root: t.src_path,
        kind: target_kind_spec(t.kind),
        is_proc_macro: t.kind == seq!["proc-macro"@],
    }
}

/// The target entries of package record `i`, in record order.
pub open spec fn pkg_targets(m: CargoMetadataV, i: int) -> Seq<TargetDataV> {
    Seq::new(m.packages[i].targets.len(), |j: int| built_target(m, i, j))
}

/// The whole target arena after the first `n` package records.
pub open spec fn built_targets(m: CargoMetadataV, n: int) -> Seq<TargetDataV>
    decreases n,
{
    if n <= 0 {
        Seq::empty()
    } else {
        built_targets(m, n - 1) + pkg_targets(m, n - 1)
    }
}

pub proof fn lemma_built_targets_len(m: CargoMetadataV, n: int)
    ensures
        built_targets(m, n).len() == tgt_base(m.packages, n),
    decreases n,
{
    if n > 0 {
        lemma_built_targets_len(m, n - 1);
    }
}

/// Every entry of the target arena names the package record it was allocated
/// for.
pub proof fn lemma_built_targets_owners(m: CargoMetadataV, n: int)
    requires
        n >= 0,
    ensures
        forall|t: int|
            0 <= t < built_targets(m, n).len() ==> 0 <= (#[trigger] built_targets(m, n)[t]).package
                < n,
    decreases n,
{
    if n > 0 {
        lemma_built_targets_owners(m, n - 1);
    }
}

/// The dependency edges of node edges `deps` (first `d` of them) that
/// resolve, in edge order, as dependency records.
pub open spec fn resolved_deps_upto(
    pkgs: Seq<MetaPackageV>,
    deps: Seq<ResolveDepV>,
    d: int,
) -> Seq<PackageDependencyV>
    decreases d,
{
    if d <= 0 {
        Seq::empty()
    } else {
        let rest = resolved_deps_upto(pkgs, deps, d - 1);
        match pkg_index_of(pkgs, deps[d - 1].pkg) {
            Some(p) => rest.push(PackageDependencyV { pkg: p, name: deps[d - 1].name }),
            None => rest,
        }
    }
}

/// All edges of a node that resolve, in edge order.
pub open spec fn resolved_deps(pkgs: Seq<MetaPackageV>, deps: Seq<ResolveDepV>) -> Seq<
    PackageDependencyV,
> {
    resolved_deps_upto(pkgs, deps, deps.len() as int)
}

pub proof fn lemma_resolved_deps_range(pkgs: Seq<MetaPackageV>, deps: Seq<ResolveDepV>, d: int)
    ensures
        forall|k: int|
            0 <= k < resolved_deps_upto(pkgs, deps, d).len() ==> 0 <= (
            #[trigger] resolved_deps_upto(pkgs, deps, d)[k]).pkg < pkgs.len(),
    decreases d,
{
    if d > 0 {
        lemma_resolved_deps_range(pkgs, deps, d - 1);
        lemma_resolve_range(pkgs, pkgs.len() as int, deps[d - 1].pkg);
        let rest = resolved_deps_upto(pkgs, deps, d - 1);
        let cur = resolved_deps_upto(pkgs, deps, d);
        assert forall|k: int| 0 <= k < cur.len() implies 0 <= (#[trigger] cur[k]).pkg
            < pkgs.len() by {
            if pkg_index_of(pkgs, deps[d - 1].pkg) is Some {
                if k < rest.len() {
                    assert(cur[k] == rest[k]);
                }
            } else {
                assert(cur[k] == rest[k]);
            }
        }
    }
}

/// The dependency list of package `p` after the first `n` graph nodes: the
/// resolvable edges of every node that resolves to `p`, nodes in graph order.
pub open spec fn deps_of_upto(m: CargoMetadataV, n: int, p: int) -> Seq<PackageDependencyV>
    decreases n,
{
    if n <= 0 {
        Seq::empty()
    } else {
        let rest = deps_of_upto(m, n - 1, p);
        if pkg_index_of(m.packages, m.nodes[n - 1].id) == Some(p) {
            rest + resolved_deps(m.packages, m.nodes[n - 1].deps)
        } else {
            rest
        }
    }
}

pub proof fn lemma_deps_of_upto_range(m: CargoMetadataV, n: int, p: int)
    ensures
        forall|k: int|
            0 <= k < deps_of_upto(m, n, p).len() ==> 0 <= (#[trigger] deps_of_upto(m, n, p)[k]).pkg
                < m.packages.len(),
    decreases n,
{
    if n > 0 {
        lemma_deps_of_upto_range(m, n - 1, p);
        lemma_resolved_deps_range(m.packages, m.nodes[n - 1].deps, m.nodes[n - 1].deps.len() as int);
        let rest = deps_of_upto(m, n - 1, p);
        let more = resolved_deps(m.packages, m.nodes[n - 1].deps);
        let cur = deps_of_upto(m, n, p);
        assert forall|k: int| 0 <= k < cur.len() implies 0 <= (#[trigger] cur[k]).pkg
            < m.packages.len() by {
            if pkg_index_of(m.packages, m.nodes[n - 1].id) == Some(p) {
                if k < rest.len() {
                    assert(cur[k] == rest[k]);
                } else {
                    assert(cur[k] == more[k - rest.len()]);
                }
            } else {
                assert(cur[k] == rest[k]);
            }
        }
    }
}

/// The activated features of package `p` after the first `n` graph nodes.
pub open spec fn features_of_upto(m: CargoMetadataV, n: int, p: int) -> Seq<Seq<char>>
    decreases n,
{
    if n <= 0 {
        Seq::empty()
    } else {
        let rest = features_of_upto(m, n - 1, p);
        if pkg_index_of(m.packages, m.nodes[n - 1].id) == Some(p) {
            rest + m.nodes[n - 1].features
        } else {
            rest
        }
    }
}

/// The warnings of the first `d` edges of a node: one per unresolvable edge,
/// in edge order.
pub open spec fn dep_warnings_upto(
    pkgs: Seq<MetaPackageV>,
    deps: Seq<ResolveDepV>,
    d: int,
) -> Seq<BuildWarningV>
    decreases d,
{
    if d <= 0 {
        Seq::empty()
    } else {
        let rest = dep_warnings_upto(pkgs, deps, d - 1);
        if pkg_index_of(pkgs, deps[d - 1].pkg) is None {
            rest.push(BuildWarningV::UnresolvedDep(deps[d - 1].pkg))
        } else {
            rest
        }
    }
}

/// What one node contributes to the warnings: its own identifier when the
/// node does not resolve, else one warning per unresolvable edge.
pub open spec fn node_warnings(m: CargoMetadataV, n: int) -> Seq<BuildWarningV> {
    let node = m.nodes[n];
    if pkg_index_of(m.packages, node.id) is None {
        seq![BuildWarningV::UnresolvedNode(node.id)]
    } else {
        dep_warnings_upto(m.packages, node.deps, node.deps.len() as int)
    }
}

/// All warnings of the first `n` graph nodes, in graph order.
pub open spec fn warnings_upto(m: CargoMetadataV, n: int) -> Seq<BuildWarningV>
    decreases n,
{
    if n <= 0 {
        Seq::empty()
    } else {
        warnings_upto(m, n - 1) + node_warnings(m, n - 1)
    }
}

/// The edition an identifier parses to; unreachable default for identifiers
/// that do not parse.
pub open spec fn edition_of(s: Seq<char>) -> Edition {
    match parse_edition_spec(s) {
        Some(e) => e,
        None => Edition::Edition2015,
    }
}

/// The flag list recorded for `id`, or empty.
pub open spec fn cfgs_or_empty(
    entries: Seq<crate::extern_resources::CfgsEntryV>,
    id: Seq<char>,
) -> Seq<Seq<char>> {
    match last_cfgs_for(entries, id) {
        Some(c) => c,
        None => Seq::empty(),
    }
}

/// The package entry of record `i` after the first `n` graph nodes have been
/// walked.
pub open spec fn pkg_partial(
    m: CargoMetadataV,
    res: ExternResourcesV,
    i: int,
    n: int,
) -> PackageDataV {
    let p = m.packages[i];
    PackageDataV {
        version: p.version,
        name: p.name,
        manifest: p.manifest_path,
        targets: Seq::new(p.targets.len(), |j: int| tgt_base(m.packages, i) + j),
        is_member: m.workspace_members.contains(p.id),
        edition: edition_of(p.edition),
        dependencies: deps_of_upto(m, n, i),
        features: features_of_upto(m, n, i),
        cfgs: cfgs_or_empty(res.cfgs, p.id),
        out_dir: last_path_for(res.out_dirs, p.id),
        proc_macro_dylib_path: last_path_for(res.proc_dylib_paths, p.id),
    }
}

/// The finished package entry of record `i`.
pub open spec fn built_package(m: CargoMetadataV, res: ExternResourcesV, i: int) -> PackageDataV {
    pkg_partial(m, res, i, m.nodes.len() as int)
}

/// Every edition identifier of the package records parses.
pub open spec fn editions_ok(pkgs: Seq<MetaPackageV>) -> bool {
    forall|i: int|
        0 <= i < pkgs.len() ==> parse_edition_spec((#[trigger] pkgs[i]).edition) is Some
}

/// The whole workspace the builder returns for this input.
pub open spec fn built_workspace(m: CargoMetadataV, res: ExternResourcesV) -> CargoWorkspaceV {
    CargoWorkspaceV {
        packages: Seq::new(m.packages.len(), |i: int| built_package(m, res, i)),
        targets: built_targets(m, m.packages.len() as int),
        workspace_root: m.workspace_root,
    }
}

/// All warnings of the whole graph walk.
pub open spec fn built_warnings(m: CargoMetadataV) -> Seq<BuildWarningV> {
    warnings_upto(m, m.nodes.len() as int)
}

/// Resolves a package identifier against the package records: the last
/// record with that identifier.
fn find_package(pkgs: &Vec<MetaPackage>, id: &String) -> (r: Option<usize>)
    ensures
        match r {
            Some(p) => p < pkgs@.len() && pkg_index_of(pkgs.deep_view(), id@) == Some(p as int),
            None => pkg_index_of(pkgs.deep_view(), id@) is None,
        },
{
    let ghost pv = pkgs.deep_view();
    let mut i: usize = pkgs.len();
    while i > 0
        invariant
            pv == pkgs.deep_view(),
            pv.len() == pkgs@.len(),
            0 <= i <= pv.len(),
            resolve_id(pv, pv.len() as int, id@) == resolve_id(pv, i as int, id@),
        decreases i,
    {
        proof {
            assert(pv[i - 1] == pkgs@[i - 1].deep_view());
        }
        if pkgs[i - 1].id == *id {
            return Some(i - 1);
        }
        i = i - 1;
    }
    None
}

impl CargoWorkspace {
    /// Builds the workspace graph from the primary query's records and the
    /// side tables of the build pass.
    ///
    /// Fails if and only if some package record's edition identifier is
    /// unrecognized, naming the first such identifier. On success the graph
    /// is exactly the one the specification functions describe: one package
    /// entry per record in record order, one target entry per target record,
    /// dependency edges and features folded in from every graph node that
    /// resolves, unresolvable nodes and edges skipped with one warning each.
    pub fn from_cargo_metadata(meta: &CargoMetadata, resources: &ExternResources) -> (r: Result<
        (CargoWorkspace, Vec<BuildWarning>),
        WorkspaceError,
    >)
        ensures
            match r {
                Ok(p) => {
                    &&& editions_ok(meta.deep_view().packages)
                    &&& p.0.deep_view() == built_workspace(meta.deep_view(), resources.deep_view())
                    &&& p.1.deep_view() == built_warnings(meta.deep_view())
                    &&& wf_workspace(p.0.deep_view())
                },
                Err(e) => {
                    let m = meta.deep_view();
                    e matches WorkspaceError::EditionParse(ed) && exists|i: int|
                        0 <= i < m.packages.len() && parse_edition_spec(
                            (#[trigger] m.packages[i]).edition,
                        ) is None && ed@ == m.packages[i].edition && (forall|k: int|
                            0 <= k < i ==> parse_edition_spec(
                                (#[trigger] m.packages[k]).edition,
                            ) is Some)
                },
            },
    {
        let ghost mv = meta.deep_view();
        let ghost rv = resources.deep_view();
        let mut packages: Vec<PackageData> = Vec::new();
        let mut targets: Vec<TargetData> = Vec::new();

        let mut i: usize = 0;
        while i < meta.packages.len()
            invariant
                mv == meta.deep_view(),
                rv == resources.deep_view(),
                mv.packages.len() == meta.packages@.len(),
                0 <= i <= mv.packages.len(),
                forall|k: int|
                    0 <= k < i ==> parse_edition_spec((#[trigger] mv.packages[k]).edition) is Some,
                packages@.len() == i,
                forall|k: int|
                    0 <= k < i ==> (#[trigger] packages@[k]).deep_view() == pkg_partial(
                        mv,
                        rv,
                        k,
                        0,
                    ),
                targets@.len() == tgt_base(mv.packages, i as int),
                targets.deep_view() == built_targets(mv, i as int),
            decreases mv.packages.len() - i,
        {
            let mp = &meta.packages[i];
            proof {
                assert(mp.deep_view() == mv.packages[i as int]);
            }
            let edition = match Edition::parse(&mp.edition) {
                Some(e) => e,
                None => {
                    proof {
                        let m = meta.deep_view();
                        assert(parse_edition_spec(m.packages[i as int].edition) is None);
                    }
                    return Err(WorkspaceError::EditionParse(mp.edition.clone()));
                },
            };
            let is_member = contains_string(&meta.workspace_members, &mp.id);
            let base = targets.len();
            let mut tgt_idxs: Vec<Target> = Vec::new();
            let mut j: usize = 0;
            while j < mp.targets.len()
                invariant
                    mv == meta.deep_view(),
                    mv.packages.len() == meta.packages@.len(),
                    0 <= i < mv.packages.len(),
                    mp.deep_view() == mv.packages[i as int],
                    mp.targets@.len() == mv.packages[i as int].targets.len(),
                    0 <= j <= mp.targets@.len(),
                    base == tgt_base(mv.packages, i as int),
                    targets@.len() == base + j,
                    targets.deep_view() == built_targets(mv, i as int) + pkg_targets(
                        mv,
                        i as int,
                    ).subrange(0, j as int),
                    tgt_idxs@.len() == j,
                    forall|k: int| 0 <= k < j ==> (#[trigger] tgt_idxs@[k]).0 == base + k,
                decreases mp.targets@.len() - j,
            {
                let mt = &mp.targets[j];
                proof {
                    assert(mt.deep_view() == mv.packages[i as int].targets[j as int]);
                }
                let is_pm = mt.kind.len() == 1 && mt.kind[0] == "proc-macro".to_owned();
                proof {
                    let kv = mv.packages[i as int].targets[j as int].kind;
                    assert(kv.len() == mt.kind@.len());
                    if mt.kind@.len() == 1 {
                        assert(kv[0] == mt.kind@[0]@);
                    }
                    if is_pm {
                        assert(kv =~= seq!["proc-macro"@]);
                    } else {
                        assert(kv != seq!["proc-macro"@]) by {
                            if kv == seq!["proc-macro"@] {
                                assert(kv.len() == 1);
                                assert(kv[0] == "proc-macro"@);
                            }
                        }
                    }
                }
                let kind = TargetKind::new(&mt.kind);
                let ghost td_before = targets.deep_view();
                targets.push(
                    TargetData {
                        package: Package(i),
                        name: mt.name.clone(),
                        root: mt.src_path.clone(),
                        kind,
                        is_proc_macro: is_pm,
                    },
                );
                let t = targets.len() - 1;
                tgt_idxs.push(Target(t));
                proof {
                    let bt = built_target(mv, i as int, j as int);
                    assert(targets@[targets@.len() - 1].deep_view() =~= bt);
                    assert(targets.deep_view() =~= td_before.push(bt));
                    assert(pkg_targets(mv, i as int).subrange(0, j as int + 1) =~= pkg_targets(
                        mv,
                        i as int,
                    ).subrange(0, j as int).push(bt));
                    assert(targets.deep_view() =~= built_targets(mv, i as int) + pkg_targets(
                        mv,
                        i as int,
                    ).subrange(0, j as int + 1));
                }
                j = j + 1;
            }
            let cfgs = match resources.cfgs_for(&mp.id) {
                Some(c) => c,
                None => Vec::new(),
            };
            let out_dir = resources.out_dir_for(&mp.id);
            let dylib = resources.dylib_path_for(&mp.id);
            packages.push(
                PackageData {
                    name: mp.name.clone(),
                    version: mp.version.clone(),
                    manifest: mp.manifest_path.clone(),
                    targets: tgt_idxs,
                    is_member,
                    edition,
                    dependencies: Vec::new(),
                    features: Vec::new(),
                    cfgs,
                    out_dir,
                    proc_macro_dylib_path: dylib,
                },
            );
            proof {
                let pd = packages@[packages@.len() - 1].deep_view();
                let want = pkg_partial(mv, rv, i as int, 0);
                assert(pd.targets =~= want.targets);
                assert(pd.dependencies =~= want.dependencies);
                assert(pd.features =~= want.features);
                assert(pd.cfgs =~= want.cfgs);
                assert(pd =~= want);
                assert(pkg_targets(mv, i as int).subrange(
                    0,
                    mv.packages[i as int].targets.len() as int,
                ) =~= pkg_targets(mv, i as int));
                assert(targets.deep_view() == built_targets(mv, i as int + 1));
            }
            i = i + 1;
        }

        let mut warnings: Vec<BuildWarning> = Vec::new();
        let mut n: usize = 0;
        while n < meta.nodes.len()
            invariant
                mv == meta.deep_view(),
                rv == resources.deep_view(),
                mv.packages.len() == meta.packages@.len(),
                mv.nodes.len() == meta.nodes@.len(),
                0 <= n <= mv.nodes.len(),
                editions_ok(mv.packages),
                packages@.len() == mv.packages.len(),
                forall|k: int|
                    0 <= k < packages@.len() ==> (#[trigger] packages@[k]).deep_view()
                        == pkg_partial(mv, rv, k, n as int),
                targets.deep_view() == built_targets(mv, mv.packages.len() as int),
                warnings.deep_view() == warnings_upto(mv, n as int),
            decreases mv.nodes.len() - n,
        {
            let node = &meta.nodes[n];
            proof {
                assert(node.deep_view() == mv.nodes[n as int]);
            }
            match find_package(&meta.packages, &node.id) {
                None => {
                    warnings.push(BuildWarning::UnresolvedNode(node.id.clone()));
                    proof {
                        assert(warnings.deep_view() =~= warnings_upto(mv, n as int + 1));
                        assert forall|k: int| 0 <= k < packages@.len() implies (
                        #[trigger] packages@[k]).deep_view() == pkg_partial(
                            mv,
                            rv,
                            k,
                            n as int + 1,
                        ) by {
                            assert(deps_of_upto(mv, n as int + 1, k) == deps_of_upto(
                                mv,
                                n as int,
                                k,
                            ));
                            assert(features_of_upto(mv, n as int + 1, k) == features_of_upto(
                                mv,
                                n as int,
                                k,
                            ));
                        }
                    }
                },
                Some(src) => {
                    let ghost ndeps = mv.nodes[n as int].deps;
                    let mut d: usize = 0;
                    while d < node.deps.len()
                        invariant
                            mv == meta.deep_view(),
                            rv == resources.deep_view(),
                            mv.packages.len() == meta.packages@.len(),
                            mv.nodes.len() == meta.nodes@.len(),
                            0 <= n < mv.nodes.len(),
                            node.deep_view() == mv.nodes[n as int],
                            ndeps == mv.nodes[n as int].deps,
                            node.deps@.len() == ndeps.len(),
                            0 <= d <= ndeps.len(),
                            src < packages@.len(),
                            pkg_index_of(mv.packages, mv.nodes[n as int].id) == Some(src as int),
                            packages@.len() == mv.packages.len(),
                            forall|k: int|
                                0 <= k < packages@.len() && k != src ==> (
                                #[trigger] packages@[k]).deep_view() == pkg_partial(
                                    mv,
                                    rv,
                                    k,
                                    n as int,
                                ),
                            packages@[src as int].deep_view() == (PackageDataV {
                                dependencies: deps_of_upto(mv, n as int, src as int)
                                    + resolved_deps_upto(mv.packages, ndeps, d as int),
                                ..pkg_partial(mv, rv, src as int, n as int)
                            }),
                            targets.deep_view() == built_targets(mv, mv.packages.len() as int),
                            warnings.deep_view() == warnings_upto(mv, n as int)
                                + dep_warnings_upto(mv.packages, ndeps, d as int),
                        decreases node.deps@.len() - d,
                    {
                        let dep = &node.deps[d];
                        proof {
                            assert(dep.deep_view() == ndeps[d as int]);
                        }
                        match find_package(&meta.packages, &dep.pkg) {
                            Some(p) => {
                                let ghost before = packages@[src as int].deep_view();
                                let pd = &mut packages[src];
                                pd.dependencies.push(
                                    PackageDependency { pkg: Package(p), name: dep.name.clone() },
                                );
                                proof {
                                    let dv = PackageDependencyV {
                                        pkg: p as int,
                                        name: ndeps[d as int].name,
                                    };
                                    assert(packages@[src as int].deep_view().dependencies
                                        =~= before.dependencies.push(dv));
                                    assert(resolved_deps_upto(mv.packages, ndeps, d as int + 1)
                                        == resolved_deps_upto(mv.packages, ndeps, d as int).push(
                                        dv,
                                    ));
                                    assert(packages@[src as int].deep_view().dependencies
                                        =~= deps_of_upto(mv, n as int, src as int)
                                        + resolved_deps_upto(mv.packages, ndeps, d as int + 1));
                                    assert(packages@[src as int].deep_view() =~= PackageDataV {
                                        dependencies: deps_of_upto(mv, n as int, src as int)
                                            + resolved_deps_upto(mv.packages, ndeps, d as int + 1),
                                        ..pkg_partial(mv, rv, src as int, n as int)
                                    });
                                    assert(dep_warnings_upto(mv.packages, ndeps, d as int + 1)
                                        == dep_warnings_upto(mv.packages, ndeps, d as int));
                                }
                            },
                            None => {
                                let ghost wd_before = warnings.deep_view();
                                warnings.push(BuildWarning::UnresolvedDep(dep.pkg.clone()));
                                proof {
                                    let wv = BuildWarningV::UnresolvedDep(ndeps[d as int].pkg);
                                    assert(warnings.deep_view() =~= wd_before.push(wv));
                                    assert(dep_warnings_upto(mv.packages, ndeps, d as int + 1)
                                        == dep_warnings_upto(mv.packages, ndeps, d as int).push(
                                        wv,
                                    ));
                                    assert(warnings.deep_view() =~= warnings_upto(mv, n as int)
                                        + dep_warnings_upto(mv.packages, ndeps, d as int + 1));
                                    assert(resolved_deps_upto(mv.packages, ndeps, d as int + 1)
                                        == resolved_deps_upto(mv.packages, ndeps, d as int));
                                }
                            },
                        }
                        d = d + 1;
                    }
                    let pd = &mut packages[src];
                    append_strings(&mut pd.features, &node.features);
                    proof {
                        assert(node.features.deep_view() == mv.nodes[n as int].features);
                        assert(packages@[src as int].deep_view() =~= PackageDataV {
                            dependencies: deps_of_upto(mv, n as int, src as int) + resolved_deps(
                                mv.packages,
                                ndeps,
                            ),
                            features: features_of_upto(mv, n as int, src as int)
                                + mv.nodes[n as int].features,
                            ..pkg_partial(mv, rv, src as int, n as int)
                        });
                        assert forall|k: int| 0 <= k < packages@.len() implies (
                        #[trigger] packages@[k]).deep_view() == pkg_partial(
                            mv,
                            rv,
                            k,
                            n as int + 1,
                        ) by {
                            if k == src as int {
                                assert(deps_of_upto(mv, n as int + 1, k) == deps_of_upto(
                                    mv,
                                    n as int,
                                    k,
                                ) + resolved_deps(mv.packages, ndeps));
                                assert(packages@[k].deep_view() =~= pkg_partial(
                                    mv,
                                    rv,
                                    k,
                                    n as int + 1,
                                ));
                            } else {
                                assert(deps_of_upto(mv, n as int + 1, k) == deps_of_upto(
                                    mv,
                                    n as int,
                                    k,
                                ));
                            }
                        }
                        assert(node_warnings(mv, n as int) == dep_warnings_upto(
                            mv.packages,
                            ndeps,
                            ndeps.len() as int,
                        ));
                        assert(warnings.deep_view() == warnings_upto(mv, n as int + 1));
                    }
                },
            }
            n = n + 1;
        }

        let w = CargoWorkspace { packages, targets, workspace_root: meta.workspace_root.clone() };
        let warns = warnings;
        proof {
            assert(w.deep_view().packages =~= built_workspace(mv, rv).packages);
            assert(w.deep_view() =~= built_workspace(mv, rv));
            lemma_wf_built(mv, rv);
        }
        Ok((w, warns))
    }
}

/// The workspace the builder describes is well formed: every stored index
/// refers to a live entry.
pub proof fn lemma_wf_built(m: CargoMetadataV, res: ExternResourcesV)
    ensures
        wf_workspace(built_workspace(m, res)),
{
    let v = built_workspace(m, res);
    lemma_built_targets_len(m, m.packages.len() as int);
    lemma_built_targets_owners(m, m.packages.len() as int);
    assert forall|p: int, j: int|
        0 <= p < v.packages.len() && 0 <= j < v.packages[p].targets.len() implies 0 <= (
    #[trigger] v.packages[p].targets[j]) < v.targets.len() by {
        lemma_tgt_base_mono(m.packages, 0, p);
        lemma_tgt_base_mono(m.packages, p, m.packages.len() as int);
    }
    assert forall|p: int, j: int|
        0 <= p < v.packages.len() && 0 <= j < v.packages[p].dependencies.len() implies 0 <= (
    #[trigger] v.packages[p].dependencies[j]).pkg < v.packages.len() by {
        lemma_deps_of_upto_range(m, m.nodes.len() as int, p);
    }
}

} // verus!
