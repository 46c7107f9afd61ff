//! The no-implicit-any rule: flags every function parameter that carries no
//! explicit type annotation and therefore implicitly has the `any` type.
//! The rule visits every function-like construct of the tree, nested ones
//! included, and emits one issue per unannotated parameter, at the
//! parameter's 1-based line and column in the analyzed source text.

use vstd::prelude::*;
use vstd::string::StrSliceExecFns;
use vstd::string::StringExecFns;

use crate::tree::ParamKind;
use crate::tree::ParamV;
use crate::tree::SyntaxTree;
use crate::types::Issue;
use crate::types::IssueV;
use crate::types::Severity;
use crate::types::push_issue;

verus! {

/// 1-based line and column after reading the first `n` characters of
/// `source`: a newline advances the line and resets the column.
pub open spec fn line_col_rec(source: Seq<char>, n: int) -> (int, int)
    decreases n,
{
    if n <= 0 {
        (1int, 1int)
    } else {
        let prev = line_col_rec(source, n - 1);
        if source[n - 1] == '\n' {
            (prev.0 + 1, 1int)
        } else {
            (prev.0, prev.1 + 1)
        }
    }
}

/// 1-based line and column of character position `pos` in `source`; a
/// position past the end of the text is treated as the end of the text.
pub open spec fn spec_line_col(source: Seq<char>, pos: int) -> (int, int) {
    if pos <= source.len() {
        line_col_rec(source, if pos < 0 { 0 } else { pos })
    } else {
        line_col_rec(source, source.len() as int)
    }
}

proof fn lemma_line_col_at_least_one(source: Seq<char>, n: int)
    ensures
        line_col_rec(source, n).0 >= 1,
        line_col_rec(source, n).1 >= 1,
    decreases n,
{
    if n > 0 {
        lemma_line_col_at_least_one(source, n - 1);
    }
}

/// Message for an unannotated simple parameter, naming the identifier.
pub open spec fn simple_message(name: Seq<char>) -> Seq<char> {
    "Parameter '"@ + name + "' implicitly has 'any' type. Add type annotation."@
}

/// Message for an unannotated destructured (array or object) parameter.
pub open spec fn destructured_message() -> Seq<char> {
    "Destructured parameter implicitly has 'any' type. Add type annotation."@
}

/// Message for an unannotated rest parameter.
pub open spec fn rest_message() -> Seq<char> {
    "Rest parameter implicitly has 'any' type. Add type annotation."@
}

/// The message the rule emits for an unannotated parameter, distinguishing
/// the parameter's binding form.
pub open spec fn message_for(p: ParamV) -> Seq<char> {
    match p.kind {
        ParamKind::Simple => simple_message(p.name),
        ParamKind::ArrayPattern => destructured_message(),
        ParamKind::ObjectPattern => destructured_message(),
        ParamKind::Rest => rest_message(),
    }
}

/// The issue the rule emits for an unannotated parameter.
pub open spec fn issue_for_param(p: ParamV, path: Seq<char>, source: Seq<char>) -> IssueV {
    IssueV {
        rule: "no-implicit-any"@,
        file: path,
        line: spec_line_col(source, p.offset).0,
        column: spec_line_col(source, p.offset).1,
        message: message_for(p),
        severity: Severity::Error,
    }
}

/// What one parameter contributes: one issue when it has no annotation,
/// nothing otherwise.
pub open spec fn param_issues(p: ParamV, path: Seq<char>, source: Seq<char>) -> Seq<IssueV> {
    if p.has_annotation {
        Seq::empty()
    } else {
        seq![issue_for_param(p, path, source)]
    }
}

/// What one function contributes: its parameters' contributions, in
/// parameter order.
pub open spec fn params_issues(ps: Seq<ParamV>, path: Seq<char>, source: Seq<char>) -> Seq<IssueV>
    decreases ps.len(),
{
    if ps.len() == 0 {
        Seq::empty()
    } else {
        params_issues(ps.drop_last(), path, source) + param_issues(ps.last(), path, source)
    }
}

/// The rule's full output on a tree: every function's contribution, in
/// traversal order.
pub open spec fn tree_issues(fs: Seq<Seq<ParamV>>, path: Seq<char>, source: Seq<char>) -> Seq<
    IssueV,
>
    decreases fs.len(),
{
    if fs.len() == 0 {
        Seq::empty()
    } else {
        tree_issues(fs.drop_last(), path, source) + params_issues(fs.last(), path, source)
    }
}

/// Computes the 1-based line and column of character position `pos` in
/// `source`, by counting the newlines among the characters before it. The
/// text must be at least one character short of the machine word's range,
/// so that a 1-based position always fits.
pub fn get_line_col(source: &str, pos: usize) -> (r: (usize, usize))
    requires
        source@.len() < usize::MAX,
    ensures
        r.0 as int == spec_line_col(source@, pos as int).0,
        r.1 as int == spec_line_col(source@, pos as int).1,
        r.0 >= 1,
        r.1 >= 1,
{
    let n = source.unicode_len();
    let end = if pos < n {
        pos
    } else {
        n
    };
    let mut line: usize = 1;
    let mut col: usize = 1;
    let mut i: usize = 0;
    while i < end
        invariant
            end <= n,
            n == source@.len(),
            n < usize::MAX,
            i <= end,
            1 <= line,
            line <= i + 1,
            1 <= col,
            col <= i + 1,
            line as int == line_col_rec(source@, i as int).0,
            col as int == line_col_rec(source@, i as int).1,
        decreases end - i,
    {
        let c = source.get_char(i);
        if c == '\n' {
            line += 1;
            col = 1;
        } else {
            col += 1;
        }
        i += 1;
    }
    (line, col)
}

/// The analysis unit that implements the no-implicit-any rule.
pub struct NoImplicitAnyRule;

impl NoImplicitAnyRule {
    /// The rule's unique name.
    pub fn name(&self) -> (r: &'static str)
        ensures
            r@ == "no-implicit-any"@,
    {
        "no-implicit-any"
    }

    /// Runs the rule: emits one issue for every parameter of every
    /// function-like construct in `tree` that has no type annotation, in
    /// traversal order, each placed at the parameter's line and column in
    /// `source` and carrying a message for its binding form.
    pub fn check(&self, tree: &SyntaxTree, path: &String, source: &str) -> (r: Vec<Issue>)
        requires
            source@.len() < usize::MAX,
        ensures
            r.deep_view() == tree_issues(tree@, path@, source@),
    {
        let ghost tdv = tree@;
        let mut out: Vec<Issue> = Vec::new();
        let mut fi: usize = 0;
        while fi < tree.functions.len()
            invariant
                source@.len() < usize::MAX,
                tdv == tree@,
                fi <= tree.functions.len(),
                tdv.len() == tree.functions@.len(),
                out.deep_view() =~= tree_issues(tdv.take(fi as int), path@, source@),
            decreases tree.functions.len() - fi,
        {
            let f = &tree.functions[fi];
            let ghost fv = tdv[fi as int];
            proof {
                assert(fv == f@);
            }
            let mut pi: usize = 0;
            while pi < f.params.len()
                invariant
                    source@.len() < usize::MAX,
                    fv == f@,
                    pi <= f.params.len(),
                    fv.len() == f.params@.len(),
                    out.deep_view() =~= tree_issues(tdv.take(fi as int), path@, source@)
                        + params_issues(fv.take(pi as int), path@, source@),
                decreases f.params.len() - pi,
            {
                let p = &f.params[pi];
                let ghost pv = fv[pi as int];
                proof {
                    assert(pv == p@);
                }
                if !p.has_annotation {
                    let (line, col) = get_line_col(source, p.offset);
                    let msg = match p.kind {
                        ParamKind::Simple => "Parameter '".to_owned().concat(
                            p.name.as_str(),
                        ).concat("' implicitly has 'any' type. Add type annotation."),
                        ParamKind::ArrayPattern => "Destructured parameter implicitly has 'any' type. Add type annotation.".to_owned(),
                        ParamKind::ObjectPattern => "Destructured parameter implicitly has 'any' type. Add type annotation.".to_owned(),
                        ParamKind::Rest => "Rest parameter implicitly has 'any' type. Add type annotation.".to_owned(),
                    };
                    let issue = Issue {
                        rule: "no-implicit-any".to_owned(),
                        file: path.clone(),
                        line,
                        column: col,
                        message: msg,
                        severity: Severity::Error,
                    };
                    proof {
                        assert(issue@ == issue_for_param(pv, path@, source@));
                    }
                    push_issue(&mut out, issue);
                }
                pi += 1;
                proof {
                    assert(fv.take(pi as int).drop_last() =~= fv.take(pi - 1));
                    assert(fv.take(pi as int).last() == pv);
                    assert(out.deep_view() =~= tree_issues(tdv.take(fi as int), path@, source@)
                        + params_issues(fv.take(pi as int), path@, source@));
                }
            }
            fi += 1;
            proof {
                assert(fv.take(fv.len() as int) =~= fv);
                assert(tdv.take(fi as int).drop_last() =~= tdv.take(fi - 1));
                assert(tdv.take(fi as int).last() == fv);
                assert(out.deep_view() =~= tree_issues(tdv.take(fi as int), path@, source@));
            }
        }
        proof {
            assert(tdv.take(tdv.len() as int) =~= tdv);
        }
        out
    }
}

} // verus!
