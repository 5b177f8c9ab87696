//! The computing half of the worktree gateway: parsing the machine-readable
//! worktree listing, deciding branch synchronization from resolved commit
//! pointers, and resolving the paths that the external commands take.
//! Invoking the version-control tool itself happens outside the crate; it
//! hands this module the raw output and takes plain values back.

use vstd::prelude::*;
use crate::strutil::{
    find_nl,
    is_prefix,
    lemma_find_nl_bounds,
    lemma_find_nl_shift,
    lines_of,
    str_has_prefix,
    strip_cr,
};

verus! {

/// Failures of the external worktree commands and lookups: a command that
/// exited nonzero or could not be spawned, and a branch or upstream lookup
/// that failed for a reason other than a missing upstream.
#[derive(Debug, PartialEq, Eq)]
pub enum GatewayError {
    CommandFailed(String),
    ResolutionFailed,
}

/// The display text of a gateway failure.
pub open spec fn err_text(e: GatewayError) -> Seq<char> {
    match e {
        GatewayError::CommandFailed(m) => m@,
        GatewayError::ResolutionFailed => "branch resolution failed"@,
    }
}

impl GatewayError {
    pub fn describe(&self) -> (r: String)
        ensures
            r@ == err_text(*self),
    {
        match self {
            GatewayError::CommandFailed(m) => m.clone(),
            GatewayError::ResolutionFailed => String::from_str("branch resolution failed"),
        }
    }
}

/// A path is absolute when it starts with the separator.
pub open spec fn spec_is_absolute(p: Seq<char>) -> bool {
    p.len() > 0 && p[0] == '/'
}

pub fn is_absolute_path(p: &str) -> (r: bool)
    ensures
        r == spec_is_absolute(p@),
{
    let n = p.unicode_len();
    if n == 0 {
        false
    } else {
        p.get_char(0) == '/'
    }
}

/// Joining a relative component onto a root puts exactly one separator
/// between them.
pub open spec fn spec_join(root: Seq<char>, rel: Seq<char>) -> Seq<char> {
    if root.len() > 0 && root[root.len() - 1] == '/' {
        root + rel
    } else {
        root + "/"@ + rel
    }
}

pub fn join_path(root: &str, rel: &str) -> (r: String)
    ensures
        r@ == spec_join(root@, rel@),
{
    let n = root.unicode_len();
    if n > 0 && root.get_char(n - 1) == '/' {
        let r = String::from_str(root);
        r.concat(rel)
    } else {
        let r = String::from_str(root);
        let r = r.concat("/");
        r.concat(rel)
    }
}

/// The workspace root: the configured path as given when it is absolute,
/// else resolved relative to the repository root.
pub open spec fn spec_workspace_root(repo_root: Seq<char>, configured: Seq<char>) -> Seq<char> {
    if spec_is_absolute(configured) {
        configured
    } else {
        spec_join(repo_root, configured)
    }
}

pub fn workspace_root(repo_root: &str, configured: &str) -> (r: String)
    ensures
        r@ == spec_workspace_root(repo_root@, configured@),
{
    if is_absolute_path(configured) {
        String::from_str(configured)
    } else {
        join_path(repo_root, configured)
    }
}

/// The directory of the worktree bound to `branch`: the branch name joined
/// onto the workspace root.
pub fn worktree_target_path(repo_root: &str, configured: &str, branch: &str) -> (r: String)
    ensures
        r@ == spec_join(spec_workspace_root(repo_root@, configured@), branch@),
{
    let root = workspace_root(repo_root, configured);
    join_path(root.as_str(), branch)
}

/// `child` lies at or below `root`: it equals the root, or continues it at
/// a component boundary.
pub open spec fn spec_is_descendant(child: Seq<char>, root: Seq<char>) -> bool {
    &&& is_prefix(root, child)
    &&& {
        ||| child.len() == root.len()
        ||| child[root.len() as int] == '/'
        ||| (root.len() > 0 && root[root.len() - 1] == '/')
    }
}

pub fn is_descendant_path(child: &str, root: &str) -> (r: bool)
    ensures
        r == spec_is_descendant(child@, root@),
{
    if !str_has_prefix(child, root) {
        return false;
    }
    let nr = root.unicode_len();
    let nc = child.unicode_len();
    if nc == nr {
        return true;
    }
    if nr > 0 && root.get_char(nr - 1) == '/' {
        return true;
    }
    child.get_char(nr) == '/'
}

/// The line prefix that opens a worktree record.
pub open spec fn wt_prefix() -> Seq<char> {
    "worktree "@
}

/// The line prefix that binds the open record to a local branch.
pub open spec fn br_prefix() -> Seq<char> {
    "branch refs/heads/"@
}

/// One pass over the listing's lines, front to back. A `worktree ` line
/// opens a record with its path; a `branch refs/heads/` line closes the
/// open record and yields the branch name when the record's path lies
/// under the workspace root; a record with no branch line is dropped.
pub open spec fn parse_lines(
    lines: Seq<Seq<char>>,
    cur: Option<Seq<char>>,
    root: Seq<char>,
) -> Seq<Seq<char>>
    decreases lines.len(),
{
    if lines.len() == 0 {
        Seq::empty()
    } else {
        let l = lines[0];
        let rest = lines.drop_first();
        if is_prefix(wt_prefix(), l) {
            parse_lines(rest, Some(l.subrange(wt_prefix().len() as int, l.len() as int)), root)
        } else if is_prefix(br_prefix(), l) {
            let name = l.subrange(br_prefix().len() as int, l.len() as int);
            let tail = parse_lines(rest, None, root);
            match cur {
                Some(p) => if spec_is_descendant(p, root) {
                    seq![name] + tail
                } else {
                    tail
                },
                None => tail,
            }
        } else {
            parse_lines(rest, cur, root)
        }
    }
}

/// The branch names whose worktrees lie under `root`, in the order the
/// listing first shows them.
pub open spec fn spec_workspace_branches(output: Seq<char>, root: Seq<char>) -> Seq<Seq<char>> {
    parse_lines(lines_of(output), None, root)
}

/// The view of an optional owned string.
pub open spec fn opt_view(o: Option<String>) -> Option<Seq<char>> {
    match o {
        Some(s) => Some(s@),
        None => None,
    }
}

/// Parse the porcelain worktree listing and keep the branches whose
/// worktree path is a descendant of the workspace root.
pub fn parse_worktree_list(output: &str, root: &str) -> (branches: Vec<String>)
    ensures
        branches.deep_view() == spec_workspace_branches(output@, root@),
{
    let n = output.unicode_len();
    let mut i: usize = 0;
    let mut cur: Option<String> = None;
    let mut branches: Vec<String> = Vec::new();
    proof {
        assert(output@.subrange(0, n as int) =~= output@);
    }
    while i < n
        invariant
            i <= n,
            n == output@.len(),
            branches.deep_view() + parse_lines(
                lines_of(output@.subrange(i as int, n as int)),
                opt_view(cur),
                root@,
            ) == spec_workspace_branches(output@, root@),
        decreases n - i,
    {
        let ghost suffix = output@.subrange(i as int, n as int);
        // Find the end of the current line.
        let mut j: usize = i;
        while j < n && output.get_char(j) != '\n'
            invariant
                i <= j <= n,
                n == output@.len(),
                find_nl(output@, i as int) == find_nl(output@, j as int),
            decreases n - j,
        {
            j = j + 1;
        }
        proof {
            lemma_find_nl_bounds(output@, j as int);
            assert(j == find_nl(output@, i as int));
            lemma_find_nl_shift(output@, i as int, i as int);
            assert(find_nl(suffix, 0) == j - i);
        }
        // The line ends at `\n` or `\r\n`; a final line keeps a lone `\r`.
        let mut line_end = j;
        if j < n && line_end > i && output.get_char(line_end - 1) == '\r' {
            line_end = line_end - 1;
        }
        let line = output.substring_char(i, line_end);
        let ghost rest_suffix = output@.subrange(if j < n { j + 1 } else { n as int }, n as int);
        proof {
            if j < n {
                assert(lines_of(suffix) == seq![strip_cr(suffix.subrange(0, j - i))] + lines_of(
                    suffix.subrange(j - i + 1, suffix.len() as int),
                ));
                assert(suffix.subrange(0, j - i) =~= output@.subrange(i as int, j as int));
                assert(suffix.subrange(j - i + 1, suffix.len() as int) =~= rest_suffix);
                assert(line@ =~= strip_cr(output@.subrange(i as int, j as int)));
                assert(lines_of(suffix) == seq![line@] + lines_of(rest_suffix));
            } else {
                assert(lines_of(suffix) == seq![suffix]);
                assert(line@ =~= suffix);
                assert(rest_suffix =~= Seq::<char>::empty());
                assert(lines_of(suffix) == seq![line@] + lines_of(rest_suffix));
            }
            assert((seq![line@] + lines_of(rest_suffix)).drop_first() =~= lines_of(rest_suffix));
            assert((seq![line@] + lines_of(rest_suffix))[0] == line@);
        }
        if str_has_prefix(line, "worktree ") {
            proof {
                reveal_strlit("worktree ");
            }
            let nl = line.unicode_len();
            let path = line.substring_char(9, nl).to_owned();
            cur = Some(path);
        } else if str_has_prefix(line, "branch refs/heads/") {
            proof {
                reveal_strlit("worktree ");
                reveal_strlit("branch refs/heads/");
            }
            let nl = line.unicode_len();
            let name = line.substring_char(18, nl).to_owned();
            let mut keep = false;
            if let Some(p) = &cur {
                if is_descendant_path(p.as_str(), root) {
                    keep = true;
                }
            }
            if keep {
                let ghost old_dv = branches.deep_view();
                branches.push(name);
                proof {
                    assert(branches.deep_view() =~= old_dv.push(
                        line@.subrange(18, line@.len() as int),
                    ));
                    assert(old_dv.push(line@.subrange(18, line@.len() as int)) =~= old_dv + seq![
                        line@.subrange(18, line@.len() as int),
                    ]);
                }
            }
            cur = None;
        } else {
            proof {
                reveal_strlit("worktree ");
                reveal_strlit("branch refs/heads/");
            }
        }
        i = if j < n {
            j + 1
        } else {
            n
        };
    }
    proof {
        assert(output@.subrange(n as int, n as int) =~= Seq::<char>::empty());
        assert(branches.deep_view() + Seq::<Seq<char>>::empty() =~= branches.deep_view());
    }
    branches
}

/// Outcome of resolving a local branch's configured upstream.
pub enum UpstreamStatus {
    /// No upstream is configured for the branch.
    NotConfigured,
    /// The upstream resolved to this commit id.
    Tip(String),
    /// The upstream exists but could not be resolved to a commit.
    Unavailable,
}

/// Synchronization verdict from the resolved commit pointers alone. A
/// branch with no upstream counts as in sync; otherwise it is in sync
/// exactly when its tip equals the upstream tip. A branch whose own tip is
/// unresolved, or whose upstream failed to resolve, is an error.
pub fn is_in_sync(local_tip: &Option<String>, upstream: &UpstreamStatus) -> (r: Result<
    bool,
    GatewayError,
>)
    ensures
        match local_tip {
            None => r matches Err(GatewayError::ResolutionFailed),
            Some(l) => match upstream {
                UpstreamStatus::NotConfigured => r matches Ok(b) && b,
                UpstreamStatus::Tip(u) => r matches Ok(b) && (b <==> l@ == u@),
                UpstreamStatus::Unavailable => r matches Err(GatewayError::ResolutionFailed),
            },
        },
{
    match local_tip {
        None => Err(GatewayError::ResolutionFailed),
        Some(l) => match upstream {
            UpstreamStatus::NotConfigured => Ok(true),
            UpstreamStatus::Tip(u) => Ok(*l == *u),
            UpstreamStatus::Unavailable => Err(GatewayError::ResolutionFailed),
        },
    }
}

} // verus!
