//! The side tables gathered from a build/check pass: output directories,
//! compile-time configuration flags, and compiler-extension artifact paths,
//! each keyed by the external tool's opaque package identifier.

use vstd::prelude::*;

use cargo_metadata::Message;

use crate::paths::{first_dylib, is_dylib};
use crate::strutil::clone_strings;

verus! {

/// One structured event of the build stream, reduced to the fields this
/// library reads. Events of other kinds, and malformed lines, are `Other`.
#[derive(Debug, Clone)]
pub enum BuildEvent {
    BuildScriptExecuted { package_id: String, out_dir: String, cfgs: Vec<String> },
    CompilerArtifact { package_id: String, target_kind: Vec<String>, filenames: Vec<String> },
    Other,
}

pub ghost enum BuildEventV {
    BuildScriptExecuted { package_id: Seq<char>, out_dir: Seq<char>, cfgs: Seq<Seq<char>> },
    CompilerArtifact {
        package_id: Seq<char>,
        target_kind: Seq<Seq<char>>,
        filenames: Seq<Seq<char>>,
    },
    Other,
}

impl DeepView for BuildEvent {
    type V = BuildEventV;

    open spec fn deep_view(&self) -> BuildEventV {
        match self {
            BuildEvent::BuildScriptExecuted { package_id, out_dir, cfgs } => (
            BuildEventV::BuildScriptExecuted {
                package_id: package_id@,
                out_dir: out_dir@,
                cfgs: cfgs.deep_view(),
            }),
            BuildEvent::CompilerArtifact { package_id, target_kind, filenames } => (
            BuildEventV::CompilerArtifact {
                package_id: package_id@,
                target_kind: target_kind.deep_view(),
                filenames: filenames.deep_view(),
            }),
            BuildEvent::Other => BuildEventV::Other,
        }
    }
}

/// A path recorded for a package identifier.
#[derive(Debug, Clone)]
pub struct PathEntry {
    pub id: String,
    pub path: String,
}

#[verifier::ext_equal]
pub ghost struct PathEntryV {
    pub id: Seq<char>,
    pub path: Seq<char>,
}

impl DeepView for PathEntry {
    type V = PathEntryV;

    open spec fn deep_view(&self) -> PathEntryV {
        PathEntryV { id: self.id@, path: self.path@ }
    }
}

/// A compile-flag list recorded for a package identifier.
#[derive(Debug, Clone)]
pub struct CfgsEntry {
    pub id: String,
    pub cfgs: Vec<String>,
}

#[verifier::ext_equal]
pub ghost struct CfgsEntryV {
    pub id: Seq<char>,
    pub cfgs: Seq<Seq<char>>,
}

impl DeepView for CfgsEntry {
    type V = CfgsEntryV;

    open spec fn deep_view(&self) -> CfgsEntryV {
        CfgsEntryV { id: self.id@, cfgs: self.cfgs.deep_view() }
    }
}

/// The side tables of a build/check pass. Later entries for an identifier
/// overwrite earlier ones: a lookup answers with the last entry.
#[derive(Debug, Clone)]
pub struct ExternResources {
    pub out_dirs: Vec<PathEntry>,
    pub cfgs: Vec<CfgsEntry>,
    pub proc_dylib_paths: Vec<PathEntry>,
}

#[verifier::ext_equal]
pub ghost struct ExternResourcesV {
    pub out_dirs: Seq<PathEntryV>,
    pub cfgs: Seq<CfgsEntryV>,
    pub proc_dylib_paths: Seq<PathEntryV>,
}

impl DeepView for ExternResources {
    type V = ExternResourcesV;

    open spec fn deep_view(&self) -> ExternResourcesV {
        ExternResourcesV {
            out_dirs: self.out_dirs.deep_view(),
            cfgs: self.cfgs.deep_view(),
            proc_dylib_paths: self.proc_dylib_paths.deep_view(),
        }
    }
}

pub open spec fn empty_resources() -> ExternResourcesV {
    ExternResourcesV {
        out_dirs: Seq::empty(),
        cfgs: Seq::empty(),
        proc_dylib_paths: Seq::empty(),
    }
}

/// How one event changes the side tables: a build-script event records the
/// output directory and flags of its package; an artifact event of a
/// compiler-extension target records the first dynamic-library output file;
/// everything else changes nothing.
pub open spec fn apply_event(r: ExternResourcesV, e: BuildEventV) -> ExternResourcesV {
    match e {
        BuildEventV::BuildScriptExecuted { package_id, out_dir, cfgs } => ExternResourcesV {
            out_dirs: r.out_dirs.push(PathEntryV { id: package_id, path: out_dir }),
            cfgs: r.cfgs.push(CfgsEntryV { id: package_id, cfgs }),
            proc_dylib_paths: r.proc_dylib_paths,
        },
        BuildEventV::CompilerArtifact { package_id, target_kind, filenames } => {
            if target_kind.contains("proc-macro"@) {
                match first_dylib(filenames) {
                    Some(f) => ExternResourcesV {
                        out_dirs: r.out_dirs,
                        cfgs: r.cfgs,
                        proc_dylib_paths: r.proc_dylib_paths.push(
                            PathEntryV { id: package_id, path: f },
                        ),
                    },
                    None => r,
                }
            } else {
                r
            }
        },
        BuildEventV::Other => r,
    }
}

/// The side tables that a whole event stream leaves behind, first event first.
pub open spec fn resources_from(events: Seq<BuildEventV>) -> ExternResourcesV
    decreases events.len(),
{
    if events.len() == 0 {
        empty_resources()
    } else {
        apply_event(resources_from(events.drop_last()), events.last())
    }
}

/// The path of the last entry recorded for `id`, if any.
pub open spec fn last_path_for(entries: Seq<PathEntryV>, id: Seq<char>) -> Option<Seq<char>>
    decreases entries.len(),
{
    if entries.len() == 0 {
        None
    } else if entries.last().id == id {
        Some(entries.last().path)
    } else {
        last_path_for(entries.drop_last(), id)
    }
}

/// The flag list of the last entry recorded for `id`, if any.
pub open spec fn last_cfgs_for(entries: Seq<CfgsEntryV>, id: Seq<char>) -> Option<Seq<Seq<char>>>
    decreases entries.len(),
{
    if entries.len() == 0 {
        None
    } else if entries.last().id == id {
        Some(entries.last().cfgs)
    } else {
        last_cfgs_for(entries.drop_last(), id)
    }
}

/// Scans path entries backwards for the last one keyed by `id`.
fn find_path_entry(entries: &Vec<PathEntry>, id: &String) -> (r: Option<String>)
    ensures
        match r {
            Some(p) => last_path_for(entries.deep_view(), id@) == Some(p@),
            None => last_path_for(entries.deep_view(), id@) is None,
        },
{
    let ghost ev = entries.deep_view();
    proof {
        assert(ev.subrange(0, ev.len() as int) =~= ev);
    }
    let mut i: usize = entries.len();
    while i > 0
        invariant
            ev == entries.deep_view(),
            ev.len() == entries@.len(),
            0 <= i <= ev.len(),
            last_path_for(ev, id@) == last_path_for(ev.subrange(0, i as int), id@),
        decreases i,
    {
        proof {
            let pre = ev.subrange(0, i as int);
            assert(pre.last() == ev[i - 1]);
            assert(ev[i - 1] == entries@[i - 1].deep_view());
            assert(pre.drop_last() =~= ev.subrange(0, i - 1));
        }
        if entries[i - 1].id == *id {
            return Some(entries[i - 1].path.clone());
        }
        i = i - 1;
    }
    proof {
        assert(ev.subrange(0, 0).len() == 0);
    }
    None
}

/// Scans flag entries backwards for the last one keyed by `id`.
fn find_cfgs_entry(entries: &Vec<CfgsEntry>, id: &String) -> (r: Option<Vec<String>>)
    ensures
        match r {
            Some(c) => last_cfgs_for(entries.deep_view(), id@) == Some(c.deep_view()),
            None => last_cfgs_for(entries.deep_view(), id@) is None,
        },
{
    let ghost ev = entries.deep_view();
    proof {
        assert(ev.subrange(0, ev.len() as int) =~= ev);
    }
    let mut i: usize = entries.len();
    while i > 0
        invariant
            ev == entries.deep_view(),
            ev.len() == entries@.len(),
            0 <= i <= ev.len(),
            last_cfgs_for(ev, id@) == last_cfgs_for(ev.subrange(0, i as int), id@),
        decreases i,
    {
        proof {
            let pre = ev.subrange(0, i as int);
            assert(pre.last() == ev[i - 1]);
            assert(ev[i - 1] == entries@[i - 1].deep_view());
            assert(pre.drop_last() =~= ev.subrange(0, i - 1));
        }
        if entries[i - 1].id == *id {
            let c = clone_strings(&entries[i - 1].cfgs);
            proof {
                assert(c.deep_view() =~= entries@[i - 1].cfgs.deep_view());
            }
            return Some(c);
        }
        i = i - 1;
    }
    proof {
        assert(ev.subrange(0, 0).len() == 0);
    }
    None
}

/// Whether a raw kind-label list marks a compiler-extension target.
pub fn has_proc_macro_label(kinds: &Vec<String>) -> (r: bool)
    ensures
        r == kinds.deep_view().contains("proc-macro"@),
{
    let mut i: usize = 0;
    while i < kinds.len()
        invariant
            0 <= i <= kinds@.len(),
            kinds.deep_view().len() == kinds@.len(),
            forall|k: int| 0 <= k < i ==> kinds.deep_view()[k] != "proc-macro"@,
        decreases kinds@.len() - i,
    {
        proof {
            assert(kinds.deep_view()[i as int] == kinds@[i as int]@);
        }
        if kinds[i] == "proc-macro".to_owned() {
            assert(kinds.deep_view()[i as int] == "proc-macro"@);
            return true;
        }
        i = i + 1;
    }
    false
}

/// The first file of the list that names a dynamic library, if any.
fn first_dylib_in(files: &Vec<String>) -> (r: Option<String>)
    ensures
        match r {
            Some(f) => first_dylib(files.deep_view()) == Some(f@),
            None => first_dylib(files.deep_view()) is None,
        },
{
    let ghost fv = files.deep_view();
    proof {
        assert(fv.skip(0) =~= fv);
    }
    let mut i: usize = 0;
    while i < files.len()
        invariant
            fv == files.deep_view(),
            fv.len() == files@.len(),
            0 <= i <= fv.len(),
            first_dylib(fv) == first_dylib(fv.skip(i as int)),
        decreases files@.len() - i,
    {
        proof {
            assert(fv.skip(i as int)[0] == fv[i as int]);
            assert(fv[i as int] == files@[i as int]@);
        }
        if is_dylib(&files[i]) {
            return Some(files[i].clone());
        }
        proof {
            assert(fv.skip(i as int).drop_first() =~= fv.skip(i as int + 1));
        }
        i = i + 1;
    }
    proof {
        assert(fv.skip(fv.len() as int) =~= Seq::<Seq<char>>::empty());
    }
    None
}

impl Default for ExternResources {
    fn default() -> (r: ExternResources)
        ensures
            r.deep_view() == empty_resources(),
    {
        ExternResources::new()
    }
}

impl ExternResources {
    /// Empty side tables.
    pub fn new() -> (r: ExternResources)
        ensures
            r.deep_view() == empty_resources(),
    {
        let r = ExternResources { out_dirs: Vec::new(), cfgs: Vec::new(), proc_dylib_paths: Vec::new() };
        proof {
            assert(r.deep_view() =~= empty_resources());
        }
        r
    }

    /// Folds a stream of build events into side tables, first event first.
    pub fn from_events(events: &Vec<BuildEvent>) -> (r: ExternResources)
        ensures
            r.deep_view() == resources_from(events.deep_view()),
    {
        let ghost evs = events.deep_view();
        let mut r = ExternResources::new();
        let mut i: usize = 0;
        while i < events.len()
            invariant
                evs == events.deep_view(),
                evs.len() == events@.len(),
                0 <= i <= evs.len(),
                r.deep_view() == resources_from(evs.subrange(0, i as int)),
            decreases events@.len() - i,
        {
            proof {
                let pre = evs.subrange(0, i as int + 1);
                assert(pre.drop_last() =~= evs.subrange(0, i as int));
                assert(pre.last() == evs[i as int]);
                assert(evs[i as int] == events@[i as int].deep_view());
            }
            let ghost before = r.deep_view();
            match &events[i] {
                BuildEvent::BuildScriptExecuted { package_id, out_dir, cfgs } => {
                    r.out_dirs.push(PathEntry { id: package_id.clone(), path: out_dir.clone() });
                    r.cfgs.push(CfgsEntry { id: package_id.clone(), cfgs: clone_strings(cfgs) });
                    proof {
                        assert(r.deep_view() =~= apply_event(before, evs[i as int]));
                    }
                },
                BuildEvent::CompilerArtifact { package_id, target_kind, filenames } => {
                    if has_proc_macro_label(target_kind) {
                        match first_dylib_in(filenames) {
                            Some(f) => {
                                r.proc_dylib_paths.push(
                                    PathEntry { id: package_id.clone(), path: f },
                                );
                                proof {
                                    assert(r.deep_view() =~= apply_event(before, evs[i as int]));
                                }
                            },
                            None => {
                                proof {
                                    assert(r.deep_view() =~= apply_event(before, evs[i as int]));
                                }
                            },
                        }
                    } else {
                        proof {
                            assert(r.deep_view() =~= apply_event(before, evs[i as int]));
                        }
                    }
                },
                BuildEvent::Other => {
                    proof {
                        assert(r.deep_view() =~= apply_event(before, evs[i as int]));
                    }
                },
            }
            i = i + 1;
        }
        proof {
            assert(evs.subrange(0, evs.len() as int) =~= evs);
        }
        r
    }

    /// The output directory recorded for `id`, if any.
    pub fn out_dir_for(&self, id: &String) -> (r: Option<String>)
        ensures
            match r {
                Some(p) => last_path_for(self.deep_view().out_dirs, id@) == Some(p@),
                None => last_path_for(self.deep_view().out_dirs, id@) is None,
            },
    {
        find_path_entry(&self.out_dirs, id)
    }

    /// The compile flags recorded for `id`, if any.
    pub fn cfgs_for(&self, id: &String) -> (r: Option<Vec<String>>)
        ensures
            match r {
                Some(c) => last_cfgs_for(self.deep_view().cfgs, id@) == Some(c.deep_view()),
                None => last_cfgs_for(self.deep_view().cfgs, id@) is None,
            },
    {
        find_cfgs_entry(&self.cfgs, id)
    }

    /// The compiler-extension artifact path recorded for `id`, if any.
    pub fn dylib_path_for(&self, id: &String) -> (r: Option<String>)
        ensures
            match r {
                Some(p) => last_path_for(self.deep_view().proc_dylib_paths, id@) == Some(p@),
                None => last_path_for(self.deep_view().proc_dylib_paths, id@) is None,
            },
    {
        find_path_entry(&self.proc_dylib_paths, id)
    }
}

/// What events the build output bytes carry; the build stream parser
/// determines this from the bytes alone.
pub uninterp spec fn events_of(bytes: Seq<u8>) -> Seq<BuildEventV>;

/// Relies on cargo_metadata::Message::parse_stream: reads the byte stream
/// line by line into build messages; which messages come out is a function of
/// the bytes alone. Unreadable lines and message kinds this library does not
/// consume are handed on as events that change nothing.
#[verifier::external_body]
fn parse_messages(output: &[u8]) -> (r: Vec<BuildEvent>)
    ensures
        r.deep_view() == events_of(output@),
{
    Message::parse_stream(output).map(|m| match m {
        Ok(Message::BuildScriptExecuted(s)) => BuildEvent::BuildScriptExecuted {
            package_id: s.package_id.repr,
            out_dir: s.out_dir.into_string(),
            cfgs: s.cfgs,
        },
        Ok(Message::CompilerArtifact(a)) => BuildEvent::CompilerArtifact {
            package_id: a.package_id.repr,
            target_kind: a.target.kind.iter().map(|k| k.to_string()).collect(),
            filenames: a.filenames.into_iter().map(|f| f.into_string()).collect(),
        },
        _ => BuildEvent::Other,
    }).collect()
}

/// Builds the side tables from the raw standard output of a build/check
/// pass: parses the structured event stream and folds every event in, in
/// stream order.
pub fn load_extern_resources(output: &[u8]) -> (r: ExternResources)
    ensures
        r.deep_view() == resources_from(events_of(output@)),
{
    let events = parse_messages(output);
    ExternResources::from_events(&events)
}

} // verus!
