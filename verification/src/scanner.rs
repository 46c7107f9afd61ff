//! Scanner: the per-file analysis pipeline. For each file it first
//! consults the result cache; on a hit the cached issues are used and
//! nothing is parsed. Otherwise the caller parses the file and hands the
//! tree back: every enabled rule runs against it in rule order, the
//! concatenated issues are stored in the cache under the file's current
//! modification time, and a per-file result is produced. A parse failure
//! contributes a result with no issues and is not cached, so a transient
//! failure is never remembered.
//!
//! File discovery, reading, statting, and parsing are the embedding
//! program's concern; they reach this module as plain values (a path, an
//! optional modification time, the source text, an optional tree).

use vstd::prelude::*;

use crate::cache::FileCache;
use crate::cache::spec_get;
use crate::no_implicit_any::NoImplicitAnyRule;
use crate::no_implicit_any::tree_issues;
use crate::registry::RuleKind;
use crate::tree::ParamV;
use crate::tree::SyntaxTree;
use crate::types::FileResult;
use crate::types::Issue;
use crate::types::IssueV;
use crate::types::clone_issues;

verus! {

/// What one rule reports on a tree.
pub open spec fn rule_issues(
    k: RuleKind,
    tree: Seq<Seq<ParamV>>,
    path: Seq<char>,
    source: Seq<char>,
) -> Seq<IssueV> {
    match k {
        RuleKind::NoImplicitAny => tree_issues(tree, path, source),
    }
}

/// What a sequence of rules reports on a tree: each rule's issues,
/// concatenated in rule order.
pub open spec fn rules_issues(
    rules: Seq<RuleKind>,
    tree: Seq<Seq<ParamV>>,
    path: Seq<char>,
    source: Seq<char>,
) -> Seq<IssueV>
    decreases rules.len(),
{
    if rules.len() == 0 {
        Seq::empty()
    } else {
        rules_issues(rules.drop_last(), tree, path, source) + rule_issues(
            rules.last(),
            tree,
            path,
            source,
        )
    }
}

/// Runs one rule against a tree.
pub fn run_rule(k: RuleKind, tree: &SyntaxTree, path: &String, source: &str) -> (r: Vec<Issue>)
    requires
        source@.len() < usize::MAX,
    ensures
        r.deep_view() == rule_issues(k, tree@, path@, source@),
{
    match k {
        RuleKind::NoImplicitAny => {
            let rule = NoImplicitAnyRule;
            rule.check(tree, path, source)
        },
    }
}

/// The first step of scanning one file: either the cache already holds a
/// valid result for it, or the file must be parsed.
pub enum ScanStep {
    /// The cache held a valid entry; the per-file result is ready and no
    /// parse or rule execution is needed.
    Cached(FileResult),
    /// No valid cache entry; the caller must parse the file and continue
    /// with [`Scanner::scan_parsed`].
    NeedsParse,
}

/// Orchestrates the per-file pipeline for a fixed set of enabled rules.
pub struct Scanner {
    rules: Vec<RuleKind>,
}

impl View for Scanner {
    type V = Seq<RuleKind>;

    closed spec fn view(&self) -> Seq<RuleKind> {
        self.rules@
    }
}

impl Scanner {
    /// Creates a scanner that runs `rules`, in order, on every file it
    /// analyzes.
    pub fn new(rules: Vec<RuleKind>) -> (r: Scanner)
        ensures
            r@ == rules@,
    {
        Scanner { rules }
    }

    /// Step one for a single file: consults the cache under the file's
    /// current modification time. On a valid entry the result is ready;
    /// otherwise the file needs parsing.
    pub fn scan_single_start(&self, cache: &FileCache, path: &String, mtime: Option<u64>) -> (r:
        ScanStep)
        ensures
            spec_get(cache@.entries, cache@.fingerprint, path@, mtime) matches Some(issues) ==> (
            r matches ScanStep::Cached(fr) && fr.path@ == path@ && fr.issues.deep_view() == issues),
            spec_get(cache@.entries, cache@.fingerprint, path@, mtime) is None ==> r
                is NeedsParse,
    {
        match cache.get(path, mtime) {
            Option::Some(issues) => ScanStep::Cached(
                FileResult { path: path.clone(), issues },
            ),
            Option::None => ScanStep::NeedsParse,
        }
    }

    /// Steps two to five for a single file, after the caller parsed it:
    /// runs every enabled rule in order, stores the concatenated issues in
    /// the cache under the file's current modification time, and produces
    /// the per-file result. A failed parse (`tree` is `None`) produces a
    /// result with no issues and leaves the cache unchanged, as does a file
    /// that could no longer be statted (`mtime` is `None`).
    pub fn scan_parsed(
        &self,
        cache: &mut FileCache,
        path: &String,
        mtime: Option<u64>,
        source: &str,
        tree: Option<&SyntaxTree>,
    ) -> (fr: FileResult)
        requires
            source@.len() < usize::MAX,
        ensures
            fr.path@ == path@,
            final(cache)@.fingerprint == old(cache)@.fingerprint,
            tree is None ==> fr.issues.deep_view() == Seq::<IssueV>::empty() && final(cache)@
                == old(cache)@,
            tree matches Some(t) ==> fr.issues.deep_view() == rules_issues(
                self@,
                t@,
                path@,
                source@,
            ),
            tree is Some ==> (mtime matches Some(m) ==> final(cache)@.entries == old(
                cache,
            )@.entries.insert(
                path@,
                crate::cache::EntryV {
                    mtime: m,
                    fingerprint: old(cache)@.fingerprint,
                    issues: fr.issues.deep_view(),
                },
            )),
            tree is Some && mtime is None ==> final(cache)@ == old(cache)@,
    {
        match tree {
            Option::None => FileResult { path: path.clone(), issues: Vec::new() },
            Option::Some(t) => {
                let mut issues: Vec<Issue> = Vec::new();
                let mut i: usize = 0;
                while i < self.rules.len()
                    invariant
                        source@.len() < usize::MAX,
                        i <= self.rules.len(),
                        self@.len() == self.rules@.len(),
                        issues.deep_view() =~= rules_issues(
                            self@.take(i as int),
                            t@,
                            path@,
                            source@,
                        ),
                    decreases self.rules.len() - i,
                {
                    let k = self.rules[i];
                    let mut more = run_rule(k, t, path, source);
                    append_issues(&mut issues, &mut more);
                    i += 1;
                    proof {
                        assert(self@.take(i as int).drop_last() =~= self@.take(i - 1));
                        assert(self@.take(i as int).last() == self@[i - 1]);
                        assert(issues.deep_view() =~= rules_issues(
                            self@.take(i as int),
                            t@,
                            path@,
                            source@,
                        ));
                    }
                }
                proof {
                    assert(self@.take(self@.len() as int) =~= self@);
                }
                let stored = clone_issues(&issues);
                cache.insert(path.clone(), mtime, stored);
                FileResult { path: path.clone(), issues }
            },
        }
    }
}

/// Moves all issues of `more` to the end of `v`, in order.
fn append_issues(v: &mut Vec<Issue>, more: &mut Vec<Issue>)
    ensures
        final(v).deep_view() =~= old(v).deep_view() + old(more).deep_view(),
{
    let ghost pre = v.deep_view();
    let ghost morev = old(more).deep_view();
    let mut i: usize = 0;
    while i < more.len()
        invariant
            i <= more@.len(),
            more@.len() == old(more)@.len(),
            forall|j: int| 0 <= j < more@.len() ==> more@[j]@ == old(more)@[j]@,
            morev.len() == old(more)@.len(),
            forall|j: int| 0 <= j < morev.len() ==> morev[j] == old(more)@[j]@,
            v.deep_view() =~= pre + morev.take(i as int),
        decreases more.len() - i,
    {
        let x = more[i].clone();
        proof {
            assert(x@ == morev[i as int]);
        }
        crate::types::push_issue(v, x);
        i += 1;
        proof {
            assert(morev.take(i as int).drop_last() =~= morev.take(i - 1));
            assert((pre + morev.take(i - 1)).push(morev[i - 1]) =~= pre + morev.take(i as int));
            assert(v.deep_view() =~= pre + morev.take(i as int));
        }
    }
    proof {
        assert(morev.take(morev.len() as int) =~= morev);
    }
}

/// Idempotent re-scan: once a scan of a file stored its issues under
/// modification time `m` and fingerprint `fp`, a second scan of the
/// unchanged file under the same fingerprint finds a valid cache entry
/// holding exactly those issues, so it reuses them without parsing or rule
/// execution and reports the identical issue sequence.
pub proof fn lemma_rescan_idempotent(
    entries: Map<Seq<char>, crate::cache::EntryV>,
    fp: u64,
    path: Seq<char>,
    m: u64,
    issues: Seq<IssueV>,
)
    ensures
        spec_get(
            entries.insert(path, crate::cache::EntryV { mtime: m, fingerprint: fp, issues }),
            fp,
            path,
            Some(m),
        ) == Some(issues),
{
}

} // verus!
