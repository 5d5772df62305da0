//! Laws of the workspace builder: what the built graph owes every input,
//! stated over the builder's own specification functions and proved once for
//! all inputs.

use vstd::prelude::*;

use crate::builder::{
    built_warnings, built_workspace, dep_warnings_upto, deps_of_upto, features_of_upto,
    lemma_resolve_range, node_warnings, pkg_index_of, resolved_deps, resolved_deps_upto,
    warnings_upto, BuildWarningV,
};
use crate::extern_resources::ExternResourcesV;
use crate::meta::{CargoMetadataV, MetaPackageV, ResolveDepV};
use crate::workspace::{name_count, package_flag_spec, CargoWorkspaceV, PackageDataV};

verus! {

/// Building twice from the same records yields the same graph and the same
/// warnings: the built workspace is a function of the input alone. Indices
/// are allocated the same way in both builds, so even they agree.
pub proof fn lemma_build_deterministic(
    m: CargoMetadataV,
    res: ExternResourcesV,
    w1: CargoWorkspaceV,
    warns1: Seq<BuildWarningV>,
    w2: CargoWorkspaceV,
    warns2: Seq<BuildWarningV>,
)
    requires
        w1 == built_workspace(m, res),
        warns1 == built_warnings(m),
        w2 == built_workspace(m, res),
        warns2 == built_warnings(m),
    ensures
        w1 == w2,
        warns1 == warns2,
{
}

/// A package whose name any other package of the workspace shares is
/// referred to by the `name:version` composite; a package alone with its
/// name is referred to by the bare name.
pub proof fn lemma_package_flag_disambiguates(v: CargoWorkspaceV, p: PackageDataV)
    ensures
        name_count(v.packages, p.name) == 1 ==> package_flag_spec(v, p) == p.name,
        name_count(v.packages, p.name) != 1 ==> package_flag_spec(v, p) == p.name + ":"@
            + p.version,
{
}

/// The dependency lists that the first `n` graph nodes leave on package `p`
/// when the only node resolving to `p` is node `k`: nothing before node `k`
/// is walked, and exactly node `k`'s resolvable edges afterwards.
proof fn lemma_deps_of_unique_node(m: CargoMetadataV, k: int, p: int, n: int)
    requires
        0 <= k < m.nodes.len(),
        pkg_index_of(m.packages, m.nodes[k].id) == Some(p),
        forall|k2: int|
            0 <= k2 < m.nodes.len() && k2 != k ==> (#[trigger] m.nodes[k2]).id != m.nodes[k].id,
        0 <= n <= m.nodes.len(),
    ensures
        deps_of_upto(m, n, p) == if n <= k {
            Seq::<crate::workspace::PackageDependencyV>::empty()
        } else {
            resolved_deps(m.packages, m.nodes[k].deps)
        },
    decreases n,
{
    if n > 0 {
        lemma_deps_of_unique_node(m, k, p, n - 1);
        if n - 1 != k && pkg_index_of(m.packages, m.nodes[n - 1].id) == Some(p) {
            lemma_resolve_range(m.packages, m.packages.len() as int, m.nodes[n - 1].id);
            lemma_resolve_range(m.packages, m.packages.len() as int, m.nodes[k].id);
            assert(m.nodes[n - 1].id == m.packages[p].id);
            assert(m.nodes[k].id == m.packages[p].id);
            assert(false);
        }
    }
}

/// The resolvable edges of a node whose edges all resolve: one dependency
/// record per edge, in edge order, each naming the edge's alias and the
/// package its identifier resolves to.
proof fn lemma_resolved_deps_total(pkgs: Seq<MetaPackageV>, deps: Seq<ResolveDepV>, d: int)
    requires
        0 <= d <= deps.len(),
        forall|e: int|
            0 <= e < deps.len() ==> pkg_index_of(pkgs, (#[trigger] deps[e]).pkg) is Some,
    ensures
        resolved_deps_upto(pkgs, deps, d).len() == d,
        forall|e: int|
            0 <= e < d ==> {
                &&& (#[trigger] resolved_deps_upto(pkgs, deps, d)[e]).name == deps[e].name
                &&& pkg_index_of(pkgs, deps[e].pkg) == Some(
                    resolved_deps_upto(pkgs, deps, d)[e].pkg,
                )
            },
    decreases d,
{
    if d > 0 {
        lemma_resolved_deps_total(pkgs, deps, d - 1);
        let rest = resolved_deps_upto(pkgs, deps, d - 1);
        let cur = resolved_deps_upto(pkgs, deps, d);
        assert(pkg_index_of(pkgs, deps[d - 1].pkg) is Some);
        assert forall|e: int| 0 <= e < d - 1 implies (#[trigger] cur[e]) == rest[e] by {}
    }
}

/// When the graph's nodes carry distinct identifiers that all resolve and
/// every edge resolves too, the built workspace holds exactly one package
/// entry per record, and every edge of every node stands exactly once, in
/// edge order, on its source package's dependency list.
pub proof fn lemma_all_edges_present(m: CargoMetadataV, res: ExternResourcesV)
    requires
        forall|k: int|
            0 <= k < m.nodes.len() ==> pkg_index_of(m.packages, (#[trigger] m.nodes[k]).id)
                is Some,
        forall|k1: int, k2: int|
            0 <= k1 < k2 < m.nodes.len() ==> (#[trigger] m.nodes[k1]).id != (
            #[trigger] m.nodes[k2]).id,
        forall|k: int, e: int|
            0 <= k < m.nodes.len() && 0 <= e < m.nodes[k].deps.len() ==> pkg_index_of(
                m.packages,
                (#[trigger] m.nodes[k].deps[e]).pkg,
            ) is Some,
    ensures
        built_workspace(m, res).packages.len() == m.packages.len(),
        forall|k: int|
            0 <= k < m.nodes.len() ==> {
                let p = pkg_index_of(m.packages, (#[trigger] m.nodes[k]).id)->Some_0;
                let edges = built_workspace(m, res).packages[p].dependencies;
                &&& 0 <= p < m.packages.len()
                &&& edges.len() == m.nodes[k].deps.len()
                &&& forall|e: int|
                    0 <= e < edges.len() ==> (#[trigger] edges[e]).name == m.nodes[k].deps[e].name
                        && pkg_index_of(m.packages, m.nodes[k].deps[e].pkg) == Some(edges[e].pkg)
            },
{
    assert forall|k: int| 0 <= k < m.nodes.len() implies {
        let p = pkg_index_of(m.packages, (#[trigger] m.nodes[k]).id)->Some_0;
        let edges = built_workspace(m, res).packages[p].dependencies;
        &&& 0 <= p < m.packages.len()
        &&& edges.len() == m.nodes[k].deps.len()
        &&& forall|e: int|
            0 <= e < edges.len() ==> (#[trigger] edges[e]).name == m.nodes[k].deps[e].name
                && pkg_index_of(m.packages, m.nodes[k].deps[e].pkg) == Some(edges[e].pkg)
    } by {
        let p = pkg_index_of(m.packages, m.nodes[k].id)->Some_0;
        lemma_resolve_range(m.packages, m.packages.len() as int, m.nodes[k].id);
        assert forall|k2: int|
            0 <= k2 < m.nodes.len() && k2 != k implies (#[trigger] m.nodes[k2]).id
            != m.nodes[k].id by {}
        lemma_deps_of_unique_node(m, k, p, m.nodes.len() as int);
        lemma_resolved_deps_total(m.packages, m.nodes[k].deps, m.nodes[k].deps.len() as int);
        assert(built_workspace(m, res).packages[p].dependencies == deps_of_upto(
            m,
            m.nodes.len() as int,
            p,
        ));
    }
}

/// Warnings only accumulate as more graph nodes are walked: a warning seen
/// after `n1` nodes is still there after `n2`.
proof fn lemma_warnings_monotone(m: CargoMetadataV, n1: int, n2: int)
    requires
        0 <= n1 <= n2,
    ensures
        forall|x: BuildWarningV|
            warnings_upto(m, n1).contains(x) ==> #[trigger] warnings_upto(m, n2).contains(x),
    decreases n2 - n1,
{
    if n1 < n2 {
        lemma_warnings_monotone(m, n1, n2 - 1);
        assert forall|x: BuildWarningV|
            warnings_upto(m, n1).contains(x) implies #[trigger] warnings_upto(
            m,
            n2,
        ).contains(x) by {
            let prev = warnings_upto(m, n2 - 1);
            assert(prev.contains(x));
            let i = choose|i: int| 0 <= i < prev.len() && prev[i] == x;
            assert(warnings_upto(m, n2)[i] == x);
        }
    }
}

/// A graph node whose identifier is absent from the package list changes no
/// package at all — its edges and features are entirely absent from the
/// result — and leaves an observable warning naming the identifier.
pub proof fn lemma_unresolved_node_skipped(m: CargoMetadataV, k: int)
    requires
        0 <= k < m.nodes.len(),
        pkg_index_of(m.packages, m.nodes[k].id) is None,
    ensures
        forall|p: int| #[trigger] deps_of_upto(m, k + 1, p) == deps_of_upto(m, k, p),
        forall|p: int| #[trigger] features_of_upto(m, k + 1, p) == features_of_upto(m, k, p),
        built_warnings(m).contains(BuildWarningV::UnresolvedNode(m.nodes[k].id)),
{
    let w = BuildWarningV::UnresolvedNode(m.nodes[k].id);
    assert(node_warnings(m, k) == seq![w]);
    let prev = warnings_upto(m, k);
    assert(warnings_upto(m, k + 1) == prev + seq![w]);
    assert(warnings_upto(m, k + 1)[prev.len() as int] == w);
    assert(warnings_upto(m, k + 1).contains(w));
    lemma_warnings_monotone(m, k + 1, m.nodes.len() as int);
}

/// Dropping one unresolvable edge from a node changes nothing: the node's
/// resolved dependency list is the same with and without it, so sibling
/// edges are all retained, in their order.
pub proof fn lemma_unresolvable_dep_dropped(
    pkgs: Seq<MetaPackageV>,
    deps: Seq<ResolveDepV>,
    j: int,
)
    requires
        0 <= j < deps.len(),
        pkg_index_of(pkgs, deps[j].pkg) is None,
    ensures
        resolved_deps(pkgs, deps) == resolved_deps(pkgs, deps.remove(j)),
{
    lemma_remove_unresolved(pkgs, deps, j, deps.len() - 1);
    assert(resolved_deps_upto(pkgs, deps, j + 1) == resolved_deps_upto(pkgs, deps, j));
}

/// Edge-by-edge correspondence between a node's edge list and the same list
/// with one unresolvable edge `j` taken out.
proof fn lemma_remove_unresolved(
    pkgs: Seq<MetaPackageV>,
    deps: Seq<ResolveDepV>,
    j: int,
    d: int,
)
    requires
        0 <= j < deps.len(),
        pkg_index_of(pkgs, deps[j].pkg) is None,
        0 <= d <= deps.len() - 1,
    ensures
        resolved_deps_upto(pkgs, deps.remove(j), d) == resolved_deps_upto(
            pkgs,
            deps,
            if d <= j {
                d
            } else {
                d + 1
            },
        ),
    decreases d,
{
    if d > 0 {
        lemma_remove_unresolved(pkgs, deps, j, d - 1);
        if d - 1 < j {
            assert(deps.remove(j)[d - 1] == deps[d - 1]);
        } else {
            assert(deps.remove(j)[d - 1] == deps[d]);
            if d - 1 == j {
                assert(resolved_deps_upto(pkgs, deps, j + 1) == resolved_deps_upto(
                    pkgs,
                    deps,
                    j,
                ));
            }
        }
    }
}

} // verus!
