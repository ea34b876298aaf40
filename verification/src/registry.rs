//! The plugin registry: discovery by naming convention, lookup with
//! "did you mean" suggestions, command construction and the interpretation
//! of a finished protocol exchange.
//!
//! Discovery itself is file-system work and stays with the embedding
//! program: it walks the search-path directories in order (skipping
//! directories it cannot read), records for every entry the file name and
//! whether the file is runnable (on POSIX, a regular file with an executable
//! permission bit; elsewhere, a regular file), digests the executable's
//! content for the toolchain hash, and hands the flattened record list to
//! [`ExternalBuildMgr::new`].  Everything from the records on is defined and
//! verified here: which records register a plugin, which identifier each one
//! yields, and that a later record for the same identifier replaces the
//! earlier one in place.

use vstd::prelude::*;

use cargo_util::ProcessBuilder;

use crate::model::ExchangeOutcome;
use crate::model::ExtTarget;
use crate::model::ExchangeOutcomeV;
use crate::model::InvokeError;
use crate::model::InvokeErrorV;
use crate::model::OutputFile;
use crate::model::Target;
use crate::model::TargetResult;
use crate::model::TargetResultV;
use crate::model::Unit;
use crate::model::spec_mk_target;
use crate::parse::parse_response;
use crate::process::pb_args;
use crate::process::pb_arg;
use crate::process::pb_new;
use crate::process::pb_program;
use crate::suggest::edit_distance;
use crate::suggest::spec_best_match_from;
use crate::suggest::spec_closest;
use crate::wire::spec_response;

verus! {

/// The filename prefix every plugin executable carries.
pub open spec fn prefix_chars() -> Seq<char> {
    seq!['c', 'a', 'r', 'g', 'o', 'b', 'u', 'i', 'l', 'd', '-']
}

/// The verb of a compiler invocation.
pub open spec fn verb_build() -> Seq<char> {
    seq!['b', 'u', 'i', 'l', 'd']
}

/// The verb of a protocol invocation.
pub open spec fn verb_targets() -> Seq<char> {
    seq!['t', 'a', 'r', 'g', 'e', 't', 's']
}

/// The identifier a filename yields under the naming convention
/// `cargobuild-<identifier><exe_suffix>`, or `None` where the filename does
/// not follow it.
pub open spec fn spec_plugin_id(name: Seq<char>, suffix: Seq<char>) -> Option<Seq<char>> {
    if prefix_chars().len() + suffix.len() <= name.len() && name.subrange(
        0,
        prefix_chars().len() as int,
    ) == prefix_chars() && name.subrange(name.len() - suffix.len(), name.len() as int) == suffix {
        Some(name.subrange(prefix_chars().len() as int, name.len() - suffix.len()))
    } else {
        None
    }
}

/// Extract the plugin identifier from a filename, under the platform's
/// executable suffix (empty on POSIX).
pub fn plugin_id_of(name: &str, exe_suffix: &str) -> (r: Option<String>)
    ensures
        (match r {
            Some(id) => spec_plugin_id(name@, exe_suffix@) == Some(id@),
            None => spec_plugin_id(name@, exe_suffix@) is None,
        }),
{
    proof {
        reveal_strlit("cargobuild-");
    }
    assert(("cargobuild-")@ =~= prefix_chars());
    let n = name.unicode_len();
    let m = exe_suffix.unicode_len();
    if n < 11 || n - 11 < m {
        return None;
    }
    let pre = name.substring_char(0, 11);
    if !(pre.to_owned() == "cargobuild-".to_owned()) {
        return None;
    }
    let suf = name.substring_char(n - m, n);
    if !(suf.to_owned() == exe_suffix.to_owned()) {
        return None;
    }
    Some(name.substring_char(11, n - m).to_owned())
}

/// What the registry knows of one plugin: the resolved executable path and
/// the digest of its toolchain.
#[derive(Debug, Clone, PartialEq)]
pub struct BuildSystem {
    path: String,
    hash: u64,
}

/// Mathematical value of a [`BuildSystem`].
pub struct BuildSystemV {
    pub path: Seq<char>,
    pub hash: u64,
}

impl View for BuildSystem {
    type V = BuildSystemV;

    closed spec fn view(&self) -> BuildSystemV {
        BuildSystemV { path: self.path@, hash: self.hash }
    }
}

impl BuildSystem {
    /// Record a plugin executable under its toolchain digest (see
    /// [`crate::digest::toolchain_digest`]).
    pub fn new(path: String, hash: u64) -> (s: Self)
        ensures
            s@ == (BuildSystemV { path: path@, hash }),
    {
        BuildSystem { path, hash }
    }

    /// The stored toolchain digest.
    pub fn hash(&self) -> (h: u64)
        ensures
            h == self@.hash,
    {
        self.hash
    }

    /// The resolved executable path.
    pub fn path(&self) -> (p: &String)
        ensures
            p@ == self@.path,
    {
        &self.path
    }

    /// A process command for this plugin's executable, still without a verb.
    fn command(&self) -> (c: ProcessBuilder)
        ensures
            pb_program(c) == self@.path,
            pb_args(c) == Seq::<Seq<char>>::empty(),
    {
        pb_new(self.path.as_str())
    }
}

/// One record of discovery, as the embedding program hands it in: where the
/// file stood, its bare filename, whether it passed the runnable check, and
/// the digest of its content.
#[derive(Debug, Clone, PartialEq)]
pub struct FoundFile {
    pub dir: String,
    pub name: String,
    pub executable: bool,
    pub toolchain_hash: u64,
}

/// Mathematical value of a [`FoundFile`].
pub struct FoundFileV {
    pub dir: Seq<char>,
    pub name: Seq<char>,
    pub executable: bool,
    pub toolchain_hash: u64,
}

impl View for FoundFile {
    type V = FoundFileV;

    open spec fn view(&self) -> FoundFileV {
        FoundFileV {
            dir: self.dir@,
            name: self.name@,
            executable: self.executable,
            toolchain_hash: self.toolchain_hash,
        }
    }
}

/// One registered plugin.
#[derive(Debug, Clone, PartialEq)]
struct RegEntry {
    id: String,
    system: BuildSystem,
}

/// Mathematical value of one registered plugin.
pub struct RegEntryV {
    pub id: Seq<char>,
    pub system: BuildSystemV,
}

impl View for RegEntry {
    type V = RegEntryV;

    closed spec fn view(&self) -> RegEntryV {
        RegEntryV { id: self.id@, system: self.system@ }
    }
}

/// The handle a qualifying record registers: the directory joined to the
/// filename with `/`, and the record's digest.
pub open spec fn spec_handle_of(f: FoundFileV) -> BuildSystemV {
    BuildSystemV { path: f.dir + seq!['/'] + f.name, hash: f.toolchain_hash }
}

/// Whether a record registers a plugin: runnable, and named by the
/// convention.
pub open spec fn spec_qualifies(f: FoundFileV, suffix: Seq<char>) -> bool {
    f.executable && spec_plugin_id(f.name, suffix) is Some
}

/// The handle registered under `id`, or `None`.
pub open spec fn spec_lookup(entries: Seq<RegEntryV>, id: Seq<char>) -> Option<BuildSystemV>
    decreases entries.len(),
{
    if entries.len() == 0 {
        None
    } else if entries[0].id == id {
        Some(entries[0].system)
    } else {
        spec_lookup(entries.skip(1), id)
    }
}

/// Register `sys` under `id`: replace the entry that holds `id`, in place,
/// or append a new one.
pub open spec fn spec_upsert(entries: Seq<RegEntryV>, id: Seq<char>, sys: BuildSystemV) -> Seq<
    RegEntryV,
>
    decreases entries.len(),
{
    if entries.len() == 0 {
        seq![RegEntryV { id, system: sys }]
    } else if entries[0].id == id {
        seq![RegEntryV { id, system: sys }] + entries.skip(1)
    } else {
        seq![entries[0]] + spec_upsert(entries.skip(1), id, sys)
    }
}

/// The registered identifiers, in registration order.
pub open spec fn spec_ids(entries: Seq<RegEntryV>) -> Seq<Seq<char>> {
    entries.map_values(|e: RegEntryV| e.id)
}

/// The registry the discovery records build, walking them in order: every
/// qualifying record registers its identifier, a later record for the same
/// identifier replacing the earlier handle.
pub open spec fn spec_scan(files: Seq<FoundFileV>, suffix: Seq<char>) -> Seq<RegEntryV>
    decreases files.len(),
{
    if files.len() == 0 {
        Seq::empty()
    } else {
        let prev = spec_scan(files.drop_last(), suffix);
        let f = files.last();
        if f.executable {
            match spec_plugin_id(f.name, suffix) {
                Some(id) => spec_upsert(prev, id, spec_handle_of(f)),
                None => prev,
            }
        } else {
            prev
        }
    }
}

/// No identifier appears twice.
pub open spec fn spec_unique_ids(entries: Seq<RegEntryV>) -> bool {
    forall|i: int, j: int|
        0 <= i < j < entries.len() ==> entries[i].id != entries[j].id
}

proof fn lemma_lookup_at(entries: Seq<RegEntryV>, id: Seq<char>, k: int)
    requires
        0 <= k < entries.len(),
        entries[k].id == id,
        forall|j: int| 0 <= j < k ==> entries[j].id != id,
    ensures
        spec_lookup(entries, id) == Some(entries[k].system),
    decreases entries.len(),
{
    if k > 0 {
        lemma_lookup_at(entries.skip(1), id, k - 1);
    }
}

proof fn lemma_lookup_none(entries: Seq<RegEntryV>, id: Seq<char>)
    requires
        forall|j: int| 0 <= j < entries.len() ==> entries[j].id != id,
    ensures
        spec_lookup(entries, id) is None,
    decreases entries.len(),
{
    if entries.len() > 0 {
        lemma_lookup_none(entries.skip(1), id);
    }
}

proof fn lemma_upsert_at(entries: Seq<RegEntryV>, id: Seq<char>, sys: BuildSystemV, k: int)
    requires
        0 <= k < entries.len(),
        entries[k].id == id,
        forall|j: int| 0 <= j < k ==> entries[j].id != id,
    ensures
        spec_upsert(entries, id, sys) == entries.update(k, RegEntryV { id, system: sys }),
    decreases entries.len(),
{
    if k == 0 {
        assert(seq![RegEntryV { id, system: sys }] + entries.skip(1) =~= entries.update(
            0,
            RegEntryV { id, system: sys },
        ));
    } else {
        lemma_upsert_at(entries.skip(1), id, sys, k - 1);
        assert(seq![entries[0]] + entries.skip(1).update(k - 1, RegEntryV { id, system: sys })
            =~= entries.update(k, RegEntryV { id, system: sys }));
    }
}

proof fn lemma_upsert_missing(entries: Seq<RegEntryV>, id: Seq<char>, sys: BuildSystemV)
    requires
        forall|j: int| 0 <= j < entries.len() ==> entries[j].id != id,
    ensures
        spec_upsert(entries, id, sys) == entries.push(RegEntryV { id, system: sys }),
    decreases entries.len(),
{
    if entries.len() == 0 {
        assert(seq![RegEntryV { id, system: sys }] =~= entries.push(
            RegEntryV { id, system: sys },
        ));
    } else {
        lemma_upsert_missing(entries.skip(1), id, sys);
        assert(seq![entries[0]] + entries.skip(1).push(RegEntryV { id, system: sys })
            =~= entries.push(RegEntryV { id, system: sys }));
    }
}

fn upsert_entry(entries: &mut Vec<RegEntry>, id: String, system: BuildSystem)
    ensures
        final(entries)@.map_values(|e: RegEntry| e@) == spec_upsert(
            old(entries)@.map_values(|e: RegEntry| e@),
            id@,
            system@,
        ),
{
    let ghost ev = entries@.map_values(|e: RegEntry| e@);
    let mut i: usize = 0;
    while i < entries.len()
        invariant
            i <= entries@.len(),
            entries@ == old(entries)@,
            ev == entries@.map_values(|e: RegEntry| e@),
            forall|j: int| 0 <= j < i ==> ev[j].id != id@,
        decreases entries@.len() - i,
    {
        let hit = entries[i].id == id;
        if hit {
            proof {
                lemma_upsert_at(ev, id@, system@, i as int);
            }
            let ghost target = RegEntryV { id: id@, system: system@ };
            entries.set(i, RegEntry { id, system });
            assert(entries@.map_values(|e: RegEntry| e@) =~= ev.update(i as int, target));
            return ;
        }
        i += 1;
    }
    proof {
        lemma_upsert_missing(ev, id@, system@);
    }
    let ghost target = RegEntryV { id: id@, system: system@ };
    entries.push(RegEntry { id, system });
    assert(entries@.map_values(|e: RegEntry| e@) =~= ev.push(target));
}

/// Access to the registered external build systems.  Built once from the
/// discovery records and read-only afterwards.
#[derive(Debug, Clone, PartialEq)]
pub struct ExternalBuildMgr {
    entries: Vec<RegEntry>,
}

impl View for ExternalBuildMgr {
    type V = Seq<RegEntryV>;

    closed spec fn view(&self) -> Seq<RegEntryV> {
        self.entries@.map_values(|e: RegEntry| e@)
    }
}

impl ExternalBuildMgr {
    /// Build the registry from the discovery records, under the platform's
    /// executable suffix.
    pub fn new(files: &Vec<FoundFile>, exe_suffix: &str) -> (mgr: Self)
        ensures
            mgr@ == spec_scan(files@.map_values(|f: FoundFile| f@), exe_suffix@),
    {
        let ghost fv = files@.map_values(|f: FoundFile| f@);
        let mut entries: Vec<RegEntry> = Vec::new();
        assert(entries@.map_values(|e: RegEntry| e@) =~= spec_scan(fv.take(0), exe_suffix@));
        let mut i: usize = 0;
        while i < files.len()
            invariant
                i <= files@.len(),
                fv == files@.map_values(|f: FoundFile| f@),
                entries@.map_values(|e: RegEntry| e@) == spec_scan(fv.take(i as int), exe_suffix@),
            decreases files@.len() - i,
        {
            assert(fv.take(i as int + 1).drop_last() =~= fv.take(i as int));
            assert(fv.take(i as int + 1).last() == fv[i as int]);
            if files[i].executable {
                match plugin_id_of(files[i].name.as_str(), exe_suffix) {
                    Some(id) => {
                        let mut path = files[i].dir.clone();
                        path.append("/");
                        path.append(files[i].name.as_str());
                        proof {
                            reveal_strlit("/");
                        }
                        assert(("/")@ =~= seq!['/']);
                        let system = BuildSystem { path, hash: files[i].toolchain_hash };
                        let ghost idv = id@;
                        let ghost sysv = system@;
                        assert(sysv == spec_handle_of(fv[i as int]));
                        upsert_entry(&mut entries, id, system);
                        assert(entries@.map_values(|e: RegEntry| e@) == spec_scan(
                            fv.take(i as int + 1),
                            exe_suffix@,
                        ));
                    },
                    None => {
                    },
                }
            }
            i += 1;
        }
        assert(fv.take(files@.len() as int) =~= fv);
        ExternalBuildMgr { entries }
    }

    fn find_entry(&self, build_id: &str) -> (r: Option<usize>)
        ensures
            (match r {
                Some(k) => k < self@.len() && self@[k as int].id == build_id@ && (forall|j: int|
                    0 <= j < k ==> self@[j].id != build_id@),
                None => forall|j: int| 0 <= j < self@.len() ==> self@[j].id != build_id@,
            }),
    {
        let mut i: usize = 0;
        let target = build_id.to_owned();
        while i < self.entries.len()
            invariant
                i <= self@.len(),
                target@ == build_id@,
                forall|j: int| 0 <= j < i ==> self@[j].id != build_id@,
            decreases self@.len() - i,
        {
            let hit = self.entries[i].id == target;
            if hit {
                return Some(i);
            }
            i += 1;
        }
        None
    }

    fn closest(&self, q: &str) -> (r: Option<String>)
        ensures
            (match r {
                Some(c) => spec_closest(spec_ids(self@), q@) == Some(c@),
                None => spec_closest(spec_ids(self@), q@) is None,
            }),
    {
        let ghost ids = spec_ids(self@);
        let mut best: Option<(String, usize)> = None;
        let mut i: usize = 0;
        while i < self.entries.len()
            invariant
                i <= self@.len(),
                ids == spec_ids(self@),
                spec_best_match_from(ids, q@, 0, None) == spec_best_match_from(
                    ids,
                    q@,
                    i as int,
                    (match best {
                        None => None,
                        Some(p) => Some((p.0@, p.1 as nat)),
                    }),
                ),
            decreases self@.len() - i,
        {
            assert(ids[i as int] == self@[i as int].id);
            let d = edit_distance(q, self.entries[i].id.as_str());
            let better = match &best {
                None => true,
                Some(p) => d < p.1,
            };
            if better {
                best = Some((self.entries[i].id.clone(), d));
            }
            i += 1;
        }
        match best {
            Some(p) => {
                let ql = q.unicode_len();
                let t = (if ql < 3 {
                    3
                } else {
                    ql
                }) / 3;
                if p.1 <= t {
                    Some(p.0)
                } else {
                    None
                }
            },
            None => None,
        }
    }

    /// The handle registered under `build_id`; a miss carries the requested
    /// identifier and, when one is close enough, the best suggestion.
    pub fn build_system(&self, build_id: &str) -> (r: Result<&BuildSystem, InvokeError>)
        ensures
            (match r {
                Ok(s) => spec_lookup(self@, build_id@) == Some(s@),
                Err(e) => spec_lookup(self@, build_id@) is None && e@
                    == (InvokeErrorV::UnknownPlugin {
                    requested: build_id@,
                    suggestion: spec_closest(spec_ids(self@), build_id@),
                }),
            }),
    {
        match self.find_entry(build_id) {
            Some(k) => {
                proof {
                    lemma_lookup_at(self@, build_id@, k as int);
                }
                Ok(&self.entries[k].system)
            },
            None => {
                proof {
                    lemma_lookup_none(self@, build_id@);
                }
                Err(
                    InvokeError::UnknownPlugin {
                        requested: build_id.to_owned(),
                        suggestion: self.closest(build_id),
                    },
                )
            },
        }
    }

    /// The toolchain digest registered under `build_id`, for the host's
    /// build-fingerprint computation.
    pub fn toolchain_hash(&self, build_id: &str) -> (r: Result<u64, InvokeError>)
        ensures
            (match r {
                Ok(h) => (match spec_lookup(self@, build_id@) {
                    Some(sys) => h == sys.hash,
                    None => false,
                }),
                Err(e) => spec_lookup(self@, build_id@) is None && e@
                    == (InvokeErrorV::UnknownPlugin {
                    requested: build_id@,
                    suggestion: spec_closest(spec_ids(self@), build_id@),
                }),
            }),
    {
        match self.build_system(build_id) {
            Ok(s) => Ok(s.hash()),
            Err(e) => Err(e),
        }
    }

    /// The artifact paths the plugin produced for a finished build unit, as
    /// the build layer recorded them; an unregistered identifier is refused
    /// exactly as in [`Self::build_system`].
    pub fn outputs(&self, build_id: &str, unit: &Unit) -> (r: Result<Vec<OutputFile>, InvokeError>)
        ensures
            (match r {
                Ok(v) => spec_lookup(self@, build_id@) is Some && v@.map_values(
                    |a: OutputFile| a@,
                ) == unit@.artifacts,
                Err(e) => spec_lookup(self@, build_id@) is None && e@
                    == (InvokeErrorV::UnknownPlugin {
                    requested: build_id@,
                    suggestion: spec_closest(spec_ids(self@), build_id@),
                }),
            }),
    {
        match self.build_system(build_id) {
            Ok(_) => {
                let mut v: Vec<OutputFile> = Vec::new();
                let mut i: usize = 0;
                while i < unit.artifacts.len()
                    invariant
                        i <= unit.artifacts@.len(),
                        v@.map_values(|a: OutputFile| a@) == unit.artifacts@.take(
                            i as int,
                        ).map_values(|a: OutputFile| a@),
                    decreases unit.artifacts@.len() - i,
                {
                    let ghost prev = v@.map_values(|a: OutputFile| a@);
                    v.push(OutputFile { path: unit.artifacts[i].path.clone() });
                    assert(v@.map_values(|a: OutputFile| a@) =~= prev.push(
                        unit.artifacts@[i as int]@,
                    ));
                    assert(unit.artifacts@.take(i as int + 1).map_values(|a: OutputFile| a@)
                        =~= unit.artifacts@.take(i as int).map_values(|a: OutputFile| a@).push(
                        unit.artifacts@[i as int]@,
                    ));
                    i += 1;
                }
                assert(unit.artifacts@.take(unit.artifacts@.len() as int) =~= unit.artifacts@);
                assert(v@.map_values(|a: OutputFile| a@) =~= unit@.artifacts);
                Ok(v)
            },
            Err(e) => Err(e),
        }
    }

    /// A command that runs the plugin's compiler invocation: its executable
    /// with the single verb `build`.
    pub fn compiler(&self, build_id: &str) -> (r: Result<ProcessBuilder, InvokeError>)
        ensures
            (match r {
                Ok(c) => (match spec_lookup(self@, build_id@) {
                    Some(sys) => pb_program(c) == sys.path && pb_args(c) == seq![verb_build()],
                    None => false,
                }),
                Err(e) => spec_lookup(self@, build_id@) is None && e@
                    == (InvokeErrorV::UnknownPlugin {
                    requested: build_id@,
                    suggestion: spec_closest(spec_ids(self@), build_id@),
                }),
            }),
    {
        match self.build_system(build_id) {
            Ok(s) => {
                let mut cmd = s.command();
                pb_arg(&mut cmd, "build");
                proof {
                    reveal_strlit("build");
                }
                assert(pb_args(cmd) =~~= seq![verb_build()]);
                Ok(cmd)
            },
            Err(e) => Err(e),
        }
    }

    /// A command that starts the plugin's protocol invocation: its
    /// executable with the single verb `targets`.  The embedding program
    /// spawns it with a cleared environment, pipes for standard input and
    /// output and a discarded standard error, writes the rendered request,
    /// and brings the outcome back to [`Self::targets`].
    pub fn target_command(&self, build_id: &str) -> (r: Result<ProcessBuilder, InvokeError>)
        ensures
            (match r {
                Ok(c) => (match spec_lookup(self@, build_id@) {
                    Some(sys) => pb_program(c) == sys.path && pb_args(c) == seq![verb_targets()],
                    None => false,
                }),
                Err(e) => spec_lookup(self@, build_id@) is None && e@
                    == (InvokeErrorV::UnknownPlugin {
                    requested: build_id@,
                    suggestion: spec_closest(spec_ids(self@), build_id@),
                }),
            }),
    {
        match self.build_system(build_id) {
            Ok(s) => {
                let mut cmd = s.command();
                pb_arg(&mut cmd, "targets");
                proof {
                    reveal_strlit("targets");
                }
                assert(pb_args(cmd) =~~= seq![verb_targets()]);
                Ok(cmd)
            },
            Err(e) => Err(e),
        }
    }

    /// Interpret one finished protocol exchange for `build_id`.
    ///
    /// The failure points come in their protocol order: an unknown
    /// identifier; a spawn failure; output that is not a well-formed target
    /// response, whatever the exit code; a non-zero exit code, even over a
    /// well-formed success body; an in-band failure message, surfaced
    /// verbatim.  Only a zero exit with a success body yields targets, and
    /// only then are the response's advisory warnings and errors appended,
    /// in order, to the caller's accumulators.
    pub fn targets(
        &self,
        build_id: &str,
        outcome: &ExchangeOutcome,
        warnings: &mut Vec<String>,
        errors: &mut Vec<String>,
    ) -> (r: Result<Vec<Target>, InvokeError>)
        ensures
            (match spec_lookup(self@, build_id@) {
                None => (match r {
                    Err(e) => e@ == (InvokeErrorV::UnknownPlugin {
                        requested: build_id@,
                        suggestion: spec_closest(spec_ids(self@), build_id@),
                    }),
                    Ok(_) => false,
                }) && final(warnings)@ == old(warnings)@ && final(errors)@ == old(errors)@,
                Some(sys) => (match outcome@ {
                    ExchangeOutcomeV::LaunchFailed => (match r {
                        Err(e) => e@ == (InvokeErrorV::LaunchFailure { path: sys.path }),
                        Ok(_) => false,
                    }) && final(warnings)@ == old(warnings)@ && final(errors)@ == old(errors)@,
                    ExchangeOutcomeV::Exited { stdout, exit_code } => (match spec_response(
                        stdout,
                    ) {
                        None => (match r {
                            Err(e) => e@ == (InvokeErrorV::ProtocolError { path: sys.path }),
                            Ok(_) => false,
                        }) && final(warnings)@ == old(warnings)@ && final(errors)@ == old(
                            errors,
                        )@,
                        Some(resp) => if exit_code != 0 {
                            (match r {
                                Err(e) => e@ == (InvokeErrorV::ExecutionFailure {
                                    path: sys.path,
                                    exit_code,
                                }),
                                Ok(_) => false,
                            }) && final(warnings)@ == old(warnings)@ && final(errors)@ == old(
                                errors,
                            )@
                        } else {
                            (match resp {
                                TargetResultV::Success { targets: rts, warnings: jw, errors: je } => (
                                match r {
                                    Ok(ts) => ts@.map_values(|t: Target| t@) == rts.map_values(
                                        |tv| spec_mk_target(tv),
                                    ),
                                    Err(_) => false,
                                }) && final(warnings)@.map_values(|w: String| w@) == old(
                                    warnings,
                                )@.map_values(|w: String| w@) + jw && final(errors)@.map_values(
                                    |w: String| w@,
                                ) == old(errors)@.map_values(|w: String| w@) + je,
                                TargetResultV::Failure { message } => (match r {
                                    Err(e) => e@ == (InvokeErrorV::InBandFailure { message }),
                                    Ok(_) => false,
                                }) && final(warnings)@ == old(warnings)@ && final(errors)@ == old(
                                    errors,
                                )@,
                            })
                        },
                    }),
                }),
            }),
    {
        let sys = match self.build_system(build_id) {
            Ok(s) => s,
            Err(e) => {
                return Err(e);
            },
        };
        match outcome {
            ExchangeOutcome::LaunchFailed => Err(
                InvokeError::LaunchFailure { path: sys.path.clone() },
            ),
            ExchangeOutcome::Exited { stdout, exit_code } => {
                match parse_response(stdout.as_str()) {
                    None => Err(InvokeError::ProtocolError { path: sys.path.clone() }),
                    Some(v) => {
                        if *exit_code != 0 {
                            Err(
                                InvokeError::ExecutionFailure {
                                    path: sys.path.clone(),
                                    exit_code: *exit_code,
                                },
                            )
                        } else {
                            match v {
                                TargetResult::Success {
                                    targets: jt,
                                    warnings: mut jw,
                                    errors: mut je,
                                } => {
                                    let mut ts: Vec<Target> = Vec::new();
                                    let mut i: usize = 0;
                                    while i < jt.len()
                                        invariant
                                            i <= jt@.len(),
                                            ts@.map_values(|t: Target| t@) == jt@.take(
                                                i as int,
                                            ).map_values(|t: ExtTarget| t@).map_values(
                                                |tv| spec_mk_target(tv),
                                            ),
                                        decreases jt@.len() - i,
                                    {
                                        let ghost prev = ts@.map_values(|t: Target| t@);
                                        ts.push(jt[i].mk_target());
                                        assert(ts@.map_values(|t: Target| t@) =~= prev.push(
                                            spec_mk_target(jt@[i as int]@),
                                        ));
                                        assert(jt@.take(i as int + 1).map_values(
                                            |t: ExtTarget| t@,
                                        ).map_values(|tv| spec_mk_target(tv)) =~= jt@.take(
                                            i as int,
                                        ).map_values(|t: ExtTarget| t@).map_values(
                                            |tv| spec_mk_target(tv),
                                        ).push(spec_mk_target(jt@[i as int]@)));
                                        i += 1;
                                    }
                                    assert(jt@.take(jt@.len() as int) =~= jt@);
                                    let ghost jw0 = jw@;
                                    let ghost je0 = je@;
                                    warnings.append(&mut jw);
                                    errors.append(&mut je);
                                    assert(warnings@.map_values(|w: String| w@) =~= old(
                                        warnings,
                                    )@.map_values(|w: String| w@) + jw0.map_values(
                                        |w: String| w@,
                                    ));
                                    assert(errors@.map_values(|w: String| w@) =~= old(
                                        errors,
                                    )@.map_values(|w: String| w@) + je0.map_values(
                                        |w: String| w@,
                                    ));
                                    Ok(ts)
                                },
                                TargetResult::Failure { message } => Err(
                                    InvokeError::InBandFailure { message },
                                ),
                            }
                        }
                    },
                }
            },
        }
    }
}


proof fn lemma_lookup_upsert(entries: Seq<RegEntryV>, id: Seq<char>, sys: BuildSystemV, q: Seq<char>)
    ensures
        spec_lookup(spec_upsert(entries, id, sys), q) == (if q == id {
            Some(sys)
        } else {
            spec_lookup(entries, q)
        }),
    decreases entries.len(),
{
    let up = spec_upsert(entries, id, sys);
    if entries.len() == 0 {
        assert(up[0] == (RegEntryV { id, system: sys }));
        if q != id {
            assert(up.skip(1) =~= Seq::<RegEntryV>::empty());
            assert(spec_lookup(up, q) == spec_lookup(up.skip(1), q));
            assert(spec_lookup(up.skip(1), q) is None);
        }
    } else if entries[0].id == id {
        assert(up[0] == (RegEntryV { id, system: sys }));
        assert(up.skip(1) =~= entries.skip(1));
        if q != id {
            assert(spec_lookup(up, q) == spec_lookup(entries.skip(1), q));
            assert(spec_lookup(entries, q) == spec_lookup(entries.skip(1), q));
        }
    } else {
        lemma_lookup_upsert(entries.skip(1), id, sys, q);
        assert(up[0] == entries[0]);
        assert(up.skip(1) =~= spec_upsert(entries.skip(1), id, sys));
        if q == entries[0].id {
            assert(spec_lookup(up, q) == Some(entries[0].system));
            assert(spec_lookup(entries, q) == Some(entries[0].system));
        } else {
            assert(spec_lookup(up, q) == spec_lookup(up.skip(1), q));
            assert(spec_lookup(entries, q) == spec_lookup(entries.skip(1), q));
        }
    }
}

proof fn lemma_upsert_id_membership(entries: Seq<RegEntryV>, id: Seq<char>, sys: BuildSystemV)
    ensures
        forall|k: int|
            0 <= k < spec_upsert(entries, id, sys).len() ==> spec_upsert(entries, id, sys)[k].id
                == id || (exists|m: int|
                0 <= m < entries.len() && entries[m].id == spec_upsert(entries, id, sys)[k].id),
    decreases entries.len(),
{
    let up = spec_upsert(entries, id, sys);
    if entries.len() == 0 {
        assert(up[0].id == id);
    } else if entries[0].id == id {
        assert forall|k: int| 0 <= k < up.len() implies up[k].id == id || (exists|m: int|
            0 <= m < entries.len() && entries[m].id == up[k].id) by {
            if k > 0 {
                assert(up[k] == entries.skip(1)[k - 1]);
                assert(entries[k].id == up[k].id);
            }
        }
    } else {
        lemma_upsert_id_membership(entries.skip(1), id, sys);
        let sub = spec_upsert(entries.skip(1), id, sys);
        assert forall|k: int| 0 <= k < up.len() implies up[k].id == id || (exists|m: int|
            0 <= m < entries.len() && entries[m].id == up[k].id) by {
            if k == 0 {
                assert(up[0] == entries[0]);
                assert(entries[0].id == up[0].id);
            } else {
                assert(up[k] == sub[k - 1]);
                if sub[k - 1].id == id {
                } else {
                    let m = choose|m: int|
                        0 <= m < entries.skip(1).len() && entries.skip(1)[m].id == sub[k - 1].id;
                    assert(entries[m + 1] == entries.skip(1)[m]);
                    assert(entries[m + 1].id == up[k].id);
                }
            }
        }
    }
}

proof fn lemma_upsert_unique(entries: Seq<RegEntryV>, id: Seq<char>, sys: BuildSystemV)
    requires
        spec_unique_ids(entries),
    ensures
        spec_unique_ids(spec_upsert(entries, id, sys)),
    decreases entries.len(),
{
    let up = spec_upsert(entries, id, sys);
    if entries.len() == 0 {
        assert(up.len() == 1);
    } else if entries[0].id == id {
        assert forall|i: int, j: int| 0 <= i < j < up.len() implies up[i].id != up[j].id by {
            assert(up[j] == entries.skip(1)[j - 1]);
            assert(up[j] == entries[j]);
            if i == 0 {
                assert(up[0].id == entries[0].id);
            } else {
                assert(up[i] == entries.skip(1)[i - 1]);
                assert(up[i] == entries[i]);
            }
        }
    } else {
        assert forall|i: int, j: int|
            0 <= i < j < entries.skip(1).len() implies entries.skip(1)[i].id != entries.skip(
            1,
        )[j].id by {
            assert(entries.skip(1)[i] == entries[i + 1]);
            assert(entries.skip(1)[j] == entries[j + 1]);
        }
        lemma_upsert_unique(entries.skip(1), id, sys);
        lemma_upsert_id_membership(entries.skip(1), id, sys);
        let sub = spec_upsert(entries.skip(1), id, sys);
        assert forall|i: int, j: int| 0 <= i < j < up.len() implies up[i].id != up[j].id by {
            assert(up[j] == sub[j - 1]);
            if i == 0 {
                assert(up[0] == entries[0]);
                if sub[j - 1].id == id {
                } else {
                    let m = choose|m: int|
                        0 <= m < entries.skip(1).len() && entries.skip(1)[m].id == sub[j - 1].id;
                    assert(entries[m + 1] == entries.skip(1)[m]);
                }
            } else {
                assert(up[i] == sub[i - 1]);
            }
        }
    }
}

/// A registry never holds two entries for one identifier, whatever the
/// discovery records were.
pub proof fn lemma_scan_unique_ids(files: Seq<FoundFileV>, suffix: Seq<char>)
    ensures
        spec_unique_ids(spec_scan(files, suffix)),
    decreases files.len(),
{
    if files.len() > 0 {
        lemma_scan_unique_ids(files.drop_last(), suffix);
        let f = files.last();
        if f.executable {
            match spec_plugin_id(f.name, suffix) {
                Some(id) => {
                    lemma_upsert_unique(
                        spec_scan(files.drop_last(), suffix),
                        id,
                        spec_handle_of(f),
                    );
                },
                None => {},
            }
        }
    }
}

/// Exactly the discovery records that follow the naming convention and
/// pass the runnable check register a plugin; every other record is
/// silently excluded.
pub proof fn lemma_scan_registers_exactly(files: Seq<FoundFileV>, suffix: Seq<char>, id: Seq<char>)
    ensures
        (spec_lookup(spec_scan(files, suffix), id) is Some) <==> (exists|i: int|
            0 <= i < files.len() && spec_qualifies(files[i], suffix) && spec_plugin_id(
                files[i].name,
                suffix,
            ) == Some(id)),
    decreases files.len(),
{
    if files.len() == 0 {
        return ;
    }
    lemma_scan_registers_exactly(files.drop_last(), suffix, id);
    let prev = spec_scan(files.drop_last(), suffix);
    let scan = spec_scan(files, suffix);
    let f = files.last();
    let last = files.len() - 1;
    assert(forall|i: int| 0 <= i < last ==> files[i] == files.drop_last()[i]);
    let qualifies_here = spec_qualifies(f, suffix) && spec_plugin_id(f.name, suffix) == Some(id);
    if f.executable && spec_plugin_id(f.name, suffix) is Some {
        match spec_plugin_id(f.name, suffix) {
            Some(fid) => {
                lemma_lookup_upsert(prev, fid, spec_handle_of(f), id);
                if fid == id {
                    assert(spec_qualifies(files[last], suffix) && spec_plugin_id(
                        files[last].name,
                        suffix,
                    ) == Some(id));
                } else {
                    assert(spec_lookup(scan, id) == spec_lookup(prev, id));
                    if spec_lookup(prev, id) is Some {
                        let i = choose|i: int|
                            0 <= i < files.drop_last().len() && spec_qualifies(
                                files.drop_last()[i],
                                suffix,
                            ) && spec_plugin_id(files.drop_last()[i].name, suffix) == Some(id);
                        assert(spec_qualifies(files[i], suffix) && spec_plugin_id(
                            files[i].name,
                            suffix,
                        ) == Some(id));
                    }
                    if exists|i: int|
                        0 <= i < files.len() && spec_qualifies(files[i], suffix)
                            && spec_plugin_id(files[i].name, suffix) == Some(id) {
                        let i = choose|i: int|
                            0 <= i < files.len() && spec_qualifies(files[i], suffix)
                                && spec_plugin_id(files[i].name, suffix) == Some(id);
                        assert(i < last);
                        assert(spec_qualifies(files.drop_last()[i], suffix) && spec_plugin_id(
                            files.drop_last()[i].name,
                            suffix,
                        ) == Some(id));
                    }
                }
            },
            None => {},
        }
    } else {
        assert(scan == prev);
        assert(!qualifies_here);
        if spec_lookup(prev, id) is Some {
            let i = choose|i: int|
                0 <= i < files.drop_last().len() && spec_qualifies(files.drop_last()[i], suffix)
                    && spec_plugin_id(files.drop_last()[i].name, suffix) == Some(id);
            assert(spec_qualifies(files[i], suffix) && spec_plugin_id(files[i].name, suffix)
                == Some(id));
        }
        if exists|i: int|
            0 <= i < files.len() && spec_qualifies(files[i], suffix) && spec_plugin_id(
                files[i].name,
                suffix,
            ) == Some(id) {
            let i = choose|i: int|
                0 <= i < files.len() && spec_qualifies(files[i], suffix) && spec_plugin_id(
                    files[i].name,
                    suffix,
                ) == Some(id);
            assert(i < last);
            assert(spec_qualifies(files.drop_last()[i], suffix) && spec_plugin_id(
                files.drop_last()[i].name,
                suffix,
            ) == Some(id));
        }
    }
}

/// Two qualifying records with distinct identifiers, wherever their
/// directories stood on the search path, are both registered and each is
/// resolvable on its own.
pub proof fn lemma_two_distinct_plugins(
    files: Seq<FoundFileV>,
    suffix: Seq<char>,
    i: int,
    j: int,
    id_a: Seq<char>,
    id_b: Seq<char>,
)
    requires
        0 <= i < files.len(),
        0 <= j < files.len(),
        spec_qualifies(files[i], suffix),
        spec_qualifies(files[j], suffix),
        spec_plugin_id(files[i].name, suffix) == Some(id_a),
        spec_plugin_id(files[j].name, suffix) == Some(id_b),
        id_a != id_b,
    ensures
        spec_lookup(spec_scan(files, suffix), id_a) is Some,
        spec_lookup(spec_scan(files, suffix), id_b) is Some,
{
    lemma_scan_registers_exactly(files, suffix, id_a);
    lemma_scan_registers_exactly(files, suffix, id_b);
}

/// When several records yield one identifier, the registry holds the
/// handle of the last qualifying record for it -- a later search-path entry
/// replaces an earlier one.
pub proof fn lemma_same_id_last_wins(
    files: Seq<FoundFileV>,
    suffix: Seq<char>,
    j: int,
    id: Seq<char>,
)
    requires
        0 <= j < files.len(),
        spec_qualifies(files[j], suffix),
        spec_plugin_id(files[j].name, suffix) == Some(id),
        forall|k: int|
            j < k < files.len() ==> !(spec_qualifies(files[k], suffix) && spec_plugin_id(
                files[k].name,
                suffix,
            ) == Some(id)),
    ensures
        spec_lookup(spec_scan(files, suffix), id) == Some(spec_handle_of(files[j])),
    decreases files.len(),
{
    let prev = spec_scan(files.drop_last(), suffix);
    let f = files.last();
    let last = files.len() - 1;
    assert(forall|i: int| 0 <= i < last ==> files[i] == files.drop_last()[i]);
    if j == last {
        match spec_plugin_id(f.name, suffix) {
            Some(fid) => {
                lemma_lookup_upsert(prev, fid, spec_handle_of(f), id);
            },
            None => {
                assert(false);
            },
        }
    } else {
        lemma_same_id_last_wins(files.drop_last(), suffix, j, id);
        if f.executable {
            match spec_plugin_id(f.name, suffix) {
                Some(fid) => {
                    assert(fid != id);
                    lemma_lookup_upsert(prev, fid, spec_handle_of(f), id);
                },
                None => {},
            }
        }
    }
}

} // verus!
