//! Core diagnostic data: severities, issues, and per-file / per-scan results.

use vstd::prelude::*;

verus! {

/// Diagnostic level of an issue.
#[derive(Clone, Copy, Debug, PartialEq, Eq, Structural)]
pub enum Severity {
    Error,
    Warning,
    Info,
}

/// One diagnostic finding produced by a rule: where it is, which rule
/// produced it, and a human-readable message. Line and column are 1-based.
pub struct Issue {
    pub rule: String,
    pub file: String,
    pub line: usize,
    pub column: usize,
    pub message: String,
    pub severity: Severity,
}

/// Mathematical content of an [`Issue`]: every field reduced to its view, so
/// two issues with equal character content are equal values.
pub ghost struct IssueV {
    pub rule: Seq<char>,
    pub file: Seq<char>,
    pub line: int,
    pub column: int,
    pub message: Seq<char>,
    pub severity: Severity,
}

impl View for Issue {
    type V = IssueV;

    open spec fn view(&self) -> IssueV {
        IssueV {
            rule: self.rule@,
            file: self.file@,
            line: self.line as int,
            column: self.column as int,
            message: self.message@,
            severity: self.severity,
        }
    }
}

impl DeepView for Issue {
    type V = IssueV;

    open spec fn deep_view(&self) -> IssueV {
        self.view()
    }
}

impl Clone for Issue {
    fn clone(&self) -> (r: Self)
        ensures
            r@ == self@,
    {
        Issue {
            rule: self.rule.clone(),
            file: self.file.clone(),
            line: self.line,
            column: self.column,
            message: self.message.clone(),
            severity: self.severity,
        }
    }
}

/// Clones a vector of issues, preserving the issue content element by element.
pub fn clone_issues(v: &Vec<Issue>) -> (r: Vec<Issue>)
    ensures
        r.deep_view() == v.deep_view(),
{
    let mut r: Vec<Issue> = Vec::new();
    let mut i: usize = 0;
    while i < v.len()
        invariant
            i <= v.len(),
            r@.len() == i,
            forall|j: int| 0 <= j < i ==> r@[j]@ == v@[j]@,
        decreases v.len() - i,
    {
        let c = v[i].clone();
        r.push(c);
        i += 1;
    }
    proof {
        assert forall|j: int| 0 <= j < v@.len() implies r.deep_view()[j] == v.deep_view()[j] by {
            assert(r@[j]@ == v@[j]@);
        }
        assert(r.deep_view() =~= v.deep_view());
    }
    r
}

/// Appends one issue to a vector of issues, extending its content by the
/// issue's content.
pub fn push_issue(v: &mut Vec<Issue>, x: Issue)
    ensures
        final(v).deep_view() =~= old(v).deep_view().push(x@),
{
    let ghost xv = x@;
    let ghost pre = v.deep_view();
    v.push(x);
    proof {
        assert forall|j: int| 0 <= j < v@.len() implies v.deep_view()[j] == pre.push(xv)[j] by {
            if j < pre.len() {
                assert(v@[j] == old(v)@[j]);
            } else {
                assert(v@[j]@ == xv);
            }
        }
        assert(v.deep_view() =~= pre.push(xv));
    }
}

/// Per-file outcome of a scan: the path analyzed and the issues found there.
pub struct FileResult {
    pub path: String,
    pub issues: Vec<Issue>,
}

/// Mathematical content of a [`FileResult`].
pub ghost struct FileResultV {
    pub path: Seq<char>,
    pub issues: Seq<IssueV>,
}

impl View for FileResult {
    type V = FileResultV;

    open spec fn view(&self) -> FileResultV {
        FileResultV { path: self.path@, issues: self.issues.deep_view() }
    }
}

/// Aggregate outcome of one scan request: one [`FileResult`] per file scanned.
pub struct ScanReport {
    pub files: Vec<FileResult>,
}

impl View for ScanReport {
    type V = Seq<FileResultV>;

    open spec fn view(&self) -> Seq<FileResultV> {
        self.files.deep_view()
    }
}

impl DeepView for FileResult {
    type V = FileResultV;

    open spec fn deep_view(&self) -> FileResultV {
        self.view()
    }
}

impl ScanReport {
    /// Creates an empty report.
    pub fn new() -> (r: ScanReport)
        ensures
            r@ =~= Seq::<FileResultV>::empty(),
    {
        ScanReport { files: Vec::new() }
    }

    /// Appends one per-file result to the report.
    pub fn push(&mut self, fr: FileResult)
        ensures
            final(self)@ =~= old(self)@.push(fr@),
    {
        let ghost frv = fr@;
        self.files.push(fr);
        proof {
            assert(self@ =~= old(self)@.push(frv));
        }
    }

    /// Number of per-file results in the report.
    pub fn len(&self) -> (n: usize)
        ensures
            n == self@.len(),
    {
        self.files.len()
    }
}

} // verus!
