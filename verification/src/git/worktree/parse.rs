//! The listing of `git worktree list --porcelain -z`.

use vstd::prelude::*;
use vstd::string::*;
use crate::git::commit_hash::CommitHash;
use crate::git::commit_hash::is_commit_hash;
use crate::git::commit_hash::lemma_parse_commit_hash;
use crate::git::commit_hash::spec_parse_commit_hash;
use crate::git::commitish::CommitishModel;
use crate::git::commitish::ResolvedCommitish;
use crate::git::refs::local_branch::LocalBranchRef;
use crate::git::refs::name::lemma_parse_then_qualified;
use crate::git::refs::name::Ref;
use crate::git::refs::name::RefModel;
use crate::git::refs::name::spec_parse_ref;
use crate::parse::ContextModel;
use crate::parse::desc;
use crate::parse::expected;
use crate::parse::Failure;
use crate::parse::null::lemma_till_null;
use crate::parse::null::lemma_till_null_reads_field;
use crate::parse::null::till_null_at;
use crate::parse::ParseError;
use crate::parse::spec_till_null;
use crate::path::is_same_path;
use crate::path::same_path;
use crate::text::lemma_concat_assoc;
use crate::text::lemma_matches_first;
use crate::text::lemma_matches_written;
use crate::text::literal_at;
use crate::text::spec_matches_at;
use crate::text::str_eq;
use crate::text::to_chars;

verus! {

/// The mathematical value of a [`WorktreeHead`].
pub enum HeadModel {
    Bare,
    /// A detached `HEAD`, by its commit hash.
    Detached(Seq<char>),
    /// A checked-out local branch, by the commit hash and the branch name.
    Branch(Seq<char>, Seq<char>),
}

/// The mathematical value of a [`Worktree`].
pub struct WorktreeModel {
    pub path: Seq<char>,
    pub head: HeadModel,
    pub is_main: bool,
    pub locked: Option<Seq<char>>,
    pub prunable: Option<Seq<char>>,
}

/// A failure of the listing's grammar at `offset`.
pub open spec fn malformed(offset: int) -> Failure {
    Failure { offset, context: ContextModel::Description("a git worktree listing"@) }
}

/// The failure for a ref after `branch ` that is no local branch.
pub open spec fn not_a_branch(offset: int) -> Failure {
    Failure { offset, context: ContextModel::Expected("a branch ref"@) }
}

/// The head that starts at `pos`: either `bare` and a NUL, or `HEAD `, a commit hash
/// and a NUL, followed by `branch `, a ref of kind `heads` and a NUL, or by `detached`
/// and a NUL.
pub open spec fn spec_head_at(s: Seq<char>, pos: int) -> Result<(HeadModel, int), Failure> {
    if spec_matches_at(s, pos, "bare\0"@) {
        Ok((HeadModel::Bare, pos + "bare\0"@.len()))
    } else if !spec_matches_at(s, pos, "HEAD "@) {
        Err(malformed(pos))
    } else {
        let hash_at = pos + "HEAD "@.len();
        match spec_till_null(s, hash_at) {
            Err(offset) => Err(malformed(offset)),
            Ok((field, next)) => match spec_parse_commit_hash(field) {
                Err(offset) => Err(malformed(hash_at + offset)),
                Ok(hash) => {
                    if spec_matches_at(s, next, "branch "@) {
                        let ref_at = next + "branch "@.len();
                        match spec_till_null(s, ref_at) {
                            Err(offset) => Err(malformed(offset)),
                            Ok((name, after)) => match spec_parse_ref(name) {
                                Err(offset) => Err(malformed(ref_at + offset)),
                                Ok(parsed) => {
                                    if parsed.kind == "heads"@ {
                                        Ok((HeadModel::Branch(hash, parsed.name), after))
                                    } else {
                                        Err(not_a_branch(ref_at))
                                    }
                                },
                            },
                        }
                    } else if spec_matches_at(s, next, "detached\0"@) {
                        Ok((HeadModel::Detached(hash), next + "detached\0"@.len()))
                    } else {
                        Err(malformed(next))
                    }
                },
            },
        }
    }
}

/// The optional line that starts at `pos` with `keyword`: the keyword, then either a
/// NUL, for an empty reason, or a space and a reason of at least one character that
/// ends at a NUL. `None` where no such line stands at `pos`.
pub open spec fn spec_reason_at(s: Seq<char>, pos: int, keyword: Seq<char>) -> Option<(Seq<char>, int)> {
    let at = pos + keyword.len();
    if !spec_matches_at(s, pos, keyword) || at >= s.len() {
        None
    } else if s[at] == ' ' {
        match spec_till_null(s, at + 1) {
            Ok((reason, next)) => Some((reason, next)),
            Err(_) => None,
        }
    } else if s[at] == '\0' {
        Some((Seq::empty(), at + 1))
    } else {
        None
    }
}

/// The position after the optional line at `pos`, or `pos` where there is none.
pub open spec fn spec_after_reason(s: Seq<char>, pos: int, keyword: Seq<char>) -> int {
    match spec_reason_at(s, pos, keyword) {
        Some((_, next)) => next,
        None => pos,
    }
}

/// The reason of the optional line at `pos`, if the line is there.
pub open spec fn spec_reason(s: Seq<char>, pos: int, keyword: Seq<char>) -> Option<Seq<char>> {
    match spec_reason_at(s, pos, keyword) {
        Some((reason, _)) => Some(reason),
        None => None,
    }
}

/// The block that starts at `pos`: `worktree `, a path and a NUL; a head; an optional
/// `locked` line; an optional `prunable` line; and a NUL that ends the block.
pub open spec fn spec_worktree_at(s: Seq<char>, pos: int) -> Result<(WorktreeModel, int), Failure> {
    if !spec_matches_at(s, pos, "worktree "@) {
        Err(malformed(pos))
    } else {
        match spec_till_null(s, pos + "worktree "@.len()) {
            Err(offset) => Err(malformed(offset)),
            Ok((path, head_at)) => match spec_head_at(s, head_at) {
                Err(failure) => Err(failure),
                Ok((head, locked_at)) => {
                    let prunable_at = spec_after_reason(s, locked_at, "locked"@);
                    let end = spec_after_reason(s, prunable_at, "prunable"@);
                    if 0 <= end < s.len() && s[end] == '\0' {
                        Ok(
                            (
                                WorktreeModel {
                                    path,
                                    head,
                                    is_main: false,
                                    locked: spec_reason(s, locked_at, "locked"@),
                                    prunable: spec_reason(s, prunable_at, "prunable"@),
                                },
                                end + 1,
                            ),
                        )
                    } else {
                        Err(malformed(end))
                    }
                },
            },
        }
    }
}

/// `block` put before the blocks of `rest`, where there are any.
pub open spec fn spec_cons_block(
    block: WorktreeModel,
    rest: Result<Seq<WorktreeModel>, Failure>,
) -> Result<Seq<WorktreeModel>, Failure> {
    match rest {
        Ok(blocks) => Ok(seq![block] + blocks),
        Err(failure) => Err(failure),
    }
}

/// The blocks from `pos` to the end of the input.
pub open spec fn spec_worktree_blocks(s: Seq<char>, pos: int) -> Result<Seq<WorktreeModel>, Failure>
    decreases s.len() - pos,
{
    if pos < 0 || pos >= s.len() {
        Ok(Seq::empty())
    } else {
        match spec_worktree_at(s, pos) {
            Err(failure) => Err(failure),
            Ok((block, next)) => {
                if next <= pos {
                    Err(malformed(pos))
                } else {
                    spec_cons_block(block, spec_worktree_blocks(s, next))
                }
            },
        }
    }
}

/// The position in `list` of the first worktree at the path `path`, or `-1`.
pub open spec fn spec_index_of_path(list: Seq<WorktreeModel>, path: Seq<char>) -> int
    decreases list.len(),
{
    if list.len() == 0 {
        -1
    } else if spec_index_of_path(list.drop_last(), path) >= 0 {
        spec_index_of_path(list.drop_last(), path)
    } else if same_path(list.last().path, path) {
        list.len() - 1
    } else {
        -1
    }
}

/// `list` with `worktree` entered under its path. A worktree that is already listed
/// at that path is replaced, except the main worktree, which comes first and stays.
pub open spec fn spec_enter(
    list: Seq<WorktreeModel>,
    worktree: WorktreeModel,
) -> Seq<WorktreeModel> {
    let at = spec_index_of_path(list, worktree.path);
    if at < 0 {
        list.push(worktree)
    } else if at == 0 {
        list
    } else {
        list.update(at, worktree)
    }
}

/// `list` with the worktrees of `more` entered one after the other.
pub open spec fn spec_enter_all(list: Seq<WorktreeModel>, more: Seq<WorktreeModel>) -> Seq<WorktreeModel>
    decreases more.len(),
{
    if more.len() == 0 {
        list
    } else {
        spec_enter(spec_enter_all(list, more.drop_last()), more.last())
    }
}

/// `worktree` marked as the main worktree or as a linked one.
pub open spec fn spec_with_is_main(worktree: WorktreeModel, is_main: bool) -> WorktreeModel {
    WorktreeModel { is_main, ..worktree }
}

/// The worktrees made of a main worktree and the linked ones: the main worktree comes
/// first, and is the only one marked as main.
pub open spec fn spec_assemble(main: WorktreeModel, linked: Seq<WorktreeModel>) -> Seq<WorktreeModel> {
    spec_enter_all(
        seq![spec_with_is_main(main, true)],
        linked.map_values(|worktree: WorktreeModel| spec_with_is_main(worktree, false)),
    )
}

/// What a worktree parser makes of `s`. The first block is the main worktree; any
/// number of blocks follow it up to the end of the input.
pub open spec fn spec_parse_worktrees(s: Seq<char>) -> Result<Seq<WorktreeModel>, Failure> {
    match spec_worktree_at(s, 0) {
        Err(failure) => Err(failure),
        Ok((main, next)) => match spec_worktree_blocks(s, next) {
            Err(failure) => Err(failure),
            Ok(linked) => Ok(spec_assemble(main, linked)),
        },
    }
}

/// What holds of every set of worktrees: there is a main worktree, it comes first,
/// no other is marked as main, and no two stand at the same path.
pub open spec fn well_formed(list: Seq<WorktreeModel>) -> bool {
    &&& list.len() > 0
    &&& list[0].is_main
    &&& forall|k: int| 0 < k < list.len() ==> !(#[trigger] list[k]).is_main
    &&& forall|j: int, k: int|
        0 <= j < k < list.len() ==> !same_path((#[trigger] list[j]).path, (#[trigger] list[k]).path)
}

/// How many worktrees of `list` are marked as main.
pub open spec fn spec_count_main(list: Seq<WorktreeModel>) -> nat
    decreases list.len(),
{
    if list.len() == 0 {
        0
    } else {
        spec_count_main(list.drop_last()) + if list.last().is_main {
            1nat
        } else {
            0nat
        }
    }
}

/// The position that is found is the first one at the path, if there is one.
pub proof fn lemma_index_of_path(list: Seq<WorktreeModel>, path: Seq<char>)
    ensures
        -1 <= spec_index_of_path(list, path) < list.len(),
        spec_index_of_path(list, path) >= 0 ==> same_path(
            list[spec_index_of_path(list, path)].path,
            path,
        ),
        forall|k: int|
            0 <= k < list.len() && same_path((#[trigger] list[k]).path, path) ==> 0
                <= spec_index_of_path(list, path) <= k,
    decreases list.len(),
{
    if list.len() > 0 {
        lemma_index_of_path(list.drop_last(), path);
        assert forall|k: int|
            0 <= k < list.len() && same_path((#[trigger] list[k]).path, path) implies 0
            <= spec_index_of_path(list, path) <= k by {
            if k < list.len() - 1 {
                assert(list.drop_last()[k] == list[k]);
            }
        }
        if spec_index_of_path(list.drop_last(), path) >= 0 {
            assert(list.drop_last()[spec_index_of_path(list.drop_last(), path)]
                == list[spec_index_of_path(list.drop_last(), path)]);
        }
    }
}

/// Entering a linked worktree keeps a set of worktrees well formed.
pub proof fn lemma_enter_well_formed(list: Seq<WorktreeModel>, worktree: WorktreeModel)
    requires
        well_formed(list),
        !worktree.is_main,
    ensures
        well_formed(spec_enter(list, worktree)),
        spec_enter(list, worktree)[0] == list[0],
{
    lemma_index_of_path(list, worktree.path);
    let at = spec_index_of_path(list, worktree.path);
    let entered = spec_enter(list, worktree);
    if at < 0 {
        assert forall|j: int, k: int| 0 <= j < k < entered.len() implies !same_path(
            (#[trigger] entered[j]).path,
            (#[trigger] entered[k]).path,
        ) by {
            if k == list.len() {
                assert(entered[j] == list[j]);
                assert(!same_path(list[j].path, worktree.path));
            } else {
                assert(entered[j] == list[j] && entered[k] == list[k]);
            }
        }
    } else if at > 0 {
        assert forall|j: int, k: int| 0 <= j < k < entered.len() implies !same_path(
            (#[trigger] entered[j]).path,
            (#[trigger] entered[k]).path,
        ) by {
            assert(same_path(list[at].path, worktree.path));
            if j == at {
                assert(!same_path(list[at].path, list[k].path));
            } else if k == at {
                assert(!same_path(list[j].path, list[at].path));
            } else {
                assert(entered[j] == list[j] && entered[k] == list[k]);
            }
        }
    }
}

/// Entering linked worktrees keeps a set of worktrees well formed.
pub proof fn lemma_enter_all_well_formed(list: Seq<WorktreeModel>, more: Seq<WorktreeModel>)
    requires
        well_formed(list),
        forall|k: int| 0 <= k < more.len() ==> !(#[trigger] more[k]).is_main,
    ensures
        well_formed(spec_enter_all(list, more)),
        spec_enter_all(list, more)[0] == list[0],
    decreases more.len(),
{
    if more.len() > 0 {
        assert forall|k: int| 0 <= k < more.drop_last().len() implies !(
        #[trigger] more.drop_last()[k]).is_main by {
            assert(more.drop_last()[k] == more[k]);
        }
        lemma_enter_all_well_formed(list, more.drop_last());
        lemma_enter_well_formed(spec_enter_all(list, more.drop_last()), more.last());
    }
}

/// In a well-formed set of worktrees exactly one is marked as main.
pub proof fn lemma_one_main(list: Seq<WorktreeModel>)
    requires
        well_formed(list),
    ensures
        spec_count_main(list) == 1,
    decreases list.len(),
{
    if list.len() == 1 {
        assert(list.drop_last().len() == 0);
        assert(spec_count_main(list.drop_last()) == 0);
    } else {
        let front = list.drop_last();
        assert(front[0] == list[0]);
        assert forall|k: int| 0 < k < front.len() implies !(#[trigger] front[k]).is_main by {
            assert(front[k] == list[k]);
        }
        assert forall|j: int, k: int| 0 <= j < k < front.len() implies !same_path(
            (#[trigger] front[j]).path,
            (#[trigger] front[k]).path,
        ) by {
            assert(front[j] == list[j] && front[k] == list[k]);
        }
        lemma_one_main(front);
        assert(!list[list.len() - 1].is_main);
    }
}

/// Whatever listing parses gives a well-formed set of worktrees: exactly one of them
/// is the main worktree, and it is the one of the first block.
pub proof fn lemma_parsed_worktrees_have_one_main(s: Seq<char>)
    ensures
        spec_parse_worktrees(s) matches Ok(list) ==> {
            &&& well_formed(list)
            &&& spec_count_main(list) == 1
            &&& spec_worktree_at(s, 0) matches Ok((main, _)) && list[0] == spec_with_is_main(
                main,
                true,
            )
        },
{
    if let Ok(list) = spec_parse_worktrees(s) {
        let main = spec_worktree_at(s, 0)->Ok_0.0;
        let next = spec_worktree_at(s, 0)->Ok_0.1;
        let linked = spec_worktree_blocks(s, next)->Ok_0;
        lemma_enter_all_well_formed(
            seq![spec_with_is_main(main, true)],
            linked.map_values(|worktree: WorktreeModel| spec_with_is_main(worktree, false)),
        );
        lemma_one_main(list);
    }
}

impl HeadModel {
    /// The commit that is checked out, unless the worktree is bare.
    pub open spec fn commit(self) -> Option<Seq<char>> {
        match self {
            HeadModel::Bare => None,
            HeadModel::Detached(hash) => Some(hash),
            HeadModel::Branch(hash, _) => Some(hash),
        }
    }

    /// The name of the branch that is checked out, if one is.
    pub open spec fn branch(self) -> Option<Seq<char>> {
        match self {
            HeadModel::Branch(_, name) => Some(name),
            _ => None,
        }
    }

    /// What is checked out, as a commit or a ref, unless the worktree is bare.
    pub open spec fn commitish(self) -> Option<CommitishModel> {
        match self {
            HeadModel::Bare => None,
            HeadModel::Detached(hash) => Some(CommitishModel::Commit(hash)),
            HeadModel::Branch(_, name) => Some(
                CommitishModel::Ref(RefModel { kind: "heads"@, name }),
            ),
        }
    }

    /// The short text of a head: `bare`, the abbreviated hash, or the branch name.
    pub open spec fn short(self) -> Seq<char> {
        match self {
            HeadModel::Bare => "bare"@,
            HeadModel::Detached(hash) => CommitHash::spec_abbrev(hash),
            HeadModel::Branch(_, name) => name,
        }
    }
}

/// What a worktree has checked out.
#[derive(Debug, PartialEq, Eq)]
pub enum WorktreeHead {
    Bare,
    Detached(CommitHash),
    Branch(CommitHash, LocalBranchRef),
}

impl View for WorktreeHead {
    type V = HeadModel;

    open spec fn view(&self) -> HeadModel {
        match self {
            WorktreeHead::Bare => HeadModel::Bare,
            WorktreeHead::Detached(commit) => HeadModel::Detached(commit@),
            WorktreeHead::Branch(commit, branch) => HeadModel::Branch(commit@, branch@),
        }
    }
}

impl Clone for WorktreeHead {
    fn clone(&self) -> (copy: Self)
        ensures
            copy@ == self@,
    {
        match self {
            WorktreeHead::Bare => WorktreeHead::Bare,
            WorktreeHead::Detached(commit) => WorktreeHead::Detached(commit.clone()),
            WorktreeHead::Branch(commit, branch) => WorktreeHead::Branch(
                commit.clone(),
                branch.clone(),
            ),
        }
    }
}

fn malformed_at(offset: usize) -> (error: ParseError)
    ensures
        error@ == malformed(offset as int),
{
    ParseError::new(offset, desc("a git worktree listing"))
}

impl WorktreeHead {
    /// The commit that is checked out, unless the worktree is bare.
    pub fn commit(&self) -> (commit: Option<&CommitHash>)
        ensures
            match commit {
                Some(hash) => self@.commit() == Some(hash@),
                None => self@.commit() is None,
            },
    {
        match self {
            WorktreeHead::Bare => None,
            WorktreeHead::Detached(commit) => Some(commit),
            WorktreeHead::Branch(commit, _branch) => Some(commit),
        }
    }

    /// What is checked out, as a commit or a ref, unless the worktree is bare.
    pub fn commitish(&self) -> (resolved: Option<ResolvedCommitish>)
        ensures
            match resolved {
                Some(commitish) => self@.commitish() == Some(commitish@),
                None => self@.commitish() is None,
            },
    {
        match self {
            WorktreeHead::Bare => None,
            WorktreeHead::Detached(commit) => Some(ResolvedCommitish::Commit(commit.clone())),
            WorktreeHead::Branch(_, branch) => Some(ResolvedCommitish::Ref(branch.as_ref().clone())),
        }
    }

    /// The branch that is checked out, if one is.
    pub fn branch(&self) -> (branch: Option<&LocalBranchRef>)
        ensures
            match branch {
                Some(local) => self@.branch() == Some(local@),
                None => self@.branch() is None,
            },
    {
        match self {
            WorktreeHead::Bare => None,
            WorktreeHead::Detached(_) => None,
            WorktreeHead::Branch(_, branch) => Some(branch),
        }
    }

    /// Whether the worktree is bare.
    pub fn is_bare(&self) -> (bare: bool)
        ensures
            bare == (self@ is Bare),
    {
        matches!(self, WorktreeHead::Bare)
    }

    /// Whether `HEAD` is detached.
    pub fn is_detached(&self) -> (detached: bool)
        ensures
            detached == (self@ is Detached),
    {
        matches!(self, WorktreeHead::Detached(_))
    }

    /// The short text of a head: `bare`, the abbreviated hash, or the branch name.
    pub fn to_string(&self) -> (text: String)
        ensures
            text@ == self@.short(),
    {
        match self {
            WorktreeHead::Bare => String::from_str("bare"),
            WorktreeHead::Detached(commit) => commit.to_string(),
            WorktreeHead::Branch(_, branch) => branch.to_string(),
        }
    }

    /// Parses the lines of a head that fill the whole input.
    pub fn parser(input: &str) -> (parsed: Result<Self, ParseError>)
        ensures
            match parsed {
                Ok(head) => spec_head_at(input@, 0) == Ok::<_, Failure>(
                    (head@, input@.len() as int),
                ),
                Err(error) => match spec_head_at(input@, 0) {
                    Ok((head, next)) => next < input@.len() && error@ == malformed(next),
                    Err(failure) => error@ == failure,
                },
            },
    {
        let chars = to_chars(input);
        proof {
            lemma_head_at(input@, 0);
        }
        match Self::parse_at(input, &chars, 0) {
            Ok((head, next)) => {
                if next == chars.len() {
                    Ok(head)
                } else {
                    Err(malformed_at(next))
                }
            },
            Err(error) => Err(error),
        }
    }

    /// Reads the head that starts at `pos`.
    pub(crate) fn parse_at(input: &str, chars: &Vec<char>, pos: usize) -> (parsed: Result<
        (Self, usize),
        ParseError,
    >)
        requires
            chars@ == input@,
            pos <= chars@.len(),
        ensures
            match parsed {
                Ok((head, next)) => spec_head_at(input@, pos as int) == Ok::<_, Failure>(
                    (head@, next as int),
                ),
                Err(error) => spec_head_at(input@, pos as int) == Err::<(HeadModel, int), _>(
                    error@,
                ),
            },
    {
        if let Some(next) = literal_at(chars, pos, "bare\0") {
            return Ok((WorktreeHead::Bare, next));
        }
        let hash_at = match literal_at(chars, pos, "HEAD ") {
            Some(next) => next,
            None => {
                return Err(malformed_at(pos));
            },
        };
        proof {
            lemma_till_null(input@, hash_at as int);
        }
        let (field, next) = match till_null_at(input, chars, hash_at) {
            Ok(found) => found,
            Err(offset) => {
                return Err(malformed_at(offset));
            },
        };
        proof {
            lemma_parse_commit_hash(field@);
        }
        let commit = match CommitHash::parser(field.as_str()) {
            Ok(commit) => commit,
            Err(error) => {
                return Err(malformed_at(hash_at + error.offset));
            },
        };
        if let Some(ref_at) = literal_at(chars, next, "branch ") {
            proof {
                lemma_till_null(input@, ref_at as int);
            }
            let (name, after) = match till_null_at(input, chars, ref_at) {
                Ok(found) => found,
                Err(offset) => {
                    return Err(malformed_at(offset));
                },
            };
            proof {
                lemma_parse_then_qualified(name@);
            }
            match Ref::parser(name.as_str()) {
                Err(error) => Err(malformed_at(ref_at + error.offset)),
                Ok(parsed) => match LocalBranchRef::try_from(parsed) {
                    Ok(branch) => Ok((WorktreeHead::Branch(commit, branch), after)),
                    Err(_) => Err(ParseError::new(ref_at, expected("a branch ref"))),
                },
            }
        } else if let Some(after) = literal_at(chars, next, "detached\0") {
            Ok((WorktreeHead::Detached(commit), after))
        } else {
            Err(malformed_at(next))
        }
    }
}

/// A head that parses ends after where it starts, inside the input; its commit hash
/// is a commit hash.
pub proof fn lemma_head_at(s: Seq<char>, pos: int)
    requires
        0 <= pos <= s.len(),
    ensures
        match spec_head_at(s, pos) {
            Ok((head, next)) => pos < next <= s.len() && (head.commit() matches Some(hash)
                ==> is_commit_hash(hash)),
            Err(failure) => pos <= failure.offset <= s.len(),
        },
{
    reveal_strlit("bare\0");
    reveal_strlit("HEAD ");
    reveal_strlit("branch ");
    reveal_strlit("detached\0");
    if !spec_matches_at(s, pos, "bare\0"@) && spec_matches_at(s, pos, "HEAD "@) {
        let hash_at = pos + 5;
        lemma_till_null(s, hash_at);
        if let Ok((field, next)) = spec_till_null(s, hash_at) {
            lemma_parse_commit_hash(field);
            if spec_parse_commit_hash(field) is Ok && spec_matches_at(s, next, "branch "@) {
                lemma_till_null(s, next + 7);
                if let Ok((name, after)) = spec_till_null(s, next + 7) {
                    lemma_parse_then_qualified(name);
                }
            }
        }
    }
}

/// A git worktree.
#[derive(Debug, PartialEq, Eq)]
pub struct Worktree {
    pub path: String,
    pub head: WorktreeHead,
    pub is_main: bool,
    pub locked: Option<String>,
    pub prunable: Option<String>,
}

/// The view of an optional string.
pub open spec fn option_view(text: Option<String>) -> Option<Seq<char>> {
    match text {
        Some(text) => Some(text@),
        None => None,
    }
}

impl View for Worktree {
    type V = WorktreeModel;

    open spec fn view(&self) -> WorktreeModel {
        WorktreeModel {
            path: self.path@,
            head: self.head@,
            is_main: self.is_main,
            locked: option_view(self.locked),
            prunable: option_view(self.prunable),
        }
    }
}

fn clone_option(text: &Option<String>) -> (copy: Option<String>)
    ensures
        option_view(copy) == option_view(*text),
{
    match text {
        Some(text) => Some(text.clone()),
        None => None,
    }
}

impl Clone for Worktree {
    fn clone(&self) -> (copy: Self)
        ensures
            copy@ == self@,
    {
        Worktree {
            path: self.path.clone(),
            head: self.head.clone(),
            is_main: self.is_main,
            locked: clone_option(&self.locked),
            prunable: clone_option(&self.prunable),
        }
    }
}

/// What is shown of a worktree that is locked, or that can be pruned, for the reason
/// `reason`: the word `label` in brackets, with the reason where one is given.
pub open spec fn spec_describe_reason(label: Seq<char>, reason: Option<Seq<char>>) -> Seq<char> {
    match reason {
        Some(text) => if text.len() == 0 {
            " ("@ + label + ")"@
        } else {
            " ("@ + label + ": "@ + text + ")"@
        },
        None => Seq::empty(),
    }
}

impl WorktreeModel {
    /// The worktree as it is shown: its path, its head, `[main]` for the main
    /// worktree, and whether it is locked or can be pruned.
    pub open spec fn describe(self) -> Seq<char> {
        self.path + " "@ + self.head.short() + (if self.is_main {
            " [main]"@
        } else {
            Seq::empty()
        }) + spec_describe_reason("locked"@, self.locked) + spec_describe_reason(
            "prunable"@,
            self.prunable,
        )
    }
}

fn describe_reason(label: &str, reason: &Option<String>) -> (text: String)
    ensures
        text@ == spec_describe_reason(label@, option_view(*reason)),
{
    let mut text = String::new();
    if let Some(reason) = reason {
        text.append(" (");
        text.append(label);
        if reason.as_str().unicode_len() > 0 {
            text.append(": ");
            text.append(reason.as_str());
        }
        text.append(")");
    }
    assert(text@ =~= spec_describe_reason(label@, option_view(*reason)));
    text
}

impl Worktree {
    /// The worktree as it is shown; see [`WorktreeModel::describe`].
    pub fn to_string(&self) -> (text: String)
        ensures
            text@ == self@.describe(),
    {
        let mut text = self.path.clone();
        text.append(" ");
        text.append(self.head.to_string().as_str());
        if self.is_main {
            text.append(" [main]");
        }
        assert(text@ =~= self@.path + " "@ + self@.head.short() + (if self@.is_main {
            " [main]"@
        } else {
            Seq::empty()
        }));
        text.append(describe_reason("locked", &self.locked).as_str());
        text.append(describe_reason("prunable", &self.prunable).as_str());
        text
    }

    /// A bare worktree at `path`, marked as the main worktree.
    pub fn new_bare(path: &str) -> (worktree: Self)
        ensures
            worktree@ == (WorktreeModel {
                path: path@,
                head: HeadModel::Bare,
                is_main: true,
                locked: None,
                prunable: None,
            }),
    {
        Worktree {
            path: path.to_owned(),
            head: WorktreeHead::Bare,
            is_main: true,
            locked: None,
            prunable: None,
        }
    }

    /// A linked worktree at `path` with a detached `HEAD` at `commit`.
    pub fn new_detached(path: &str, commit: CommitHash) -> (worktree: Self)
        ensures
            worktree@ == (WorktreeModel {
                path: path@,
                head: HeadModel::Detached(commit@),
                is_main: false,
                locked: None,
                prunable: None,
            }),
    {
        Worktree {
            path: path.to_owned(),
            head: WorktreeHead::Detached(commit),
            is_main: false,
            locked: None,
            prunable: None,
        }
    }

    /// A linked worktree at `path` with `branch` checked out at `commit`.
    pub fn new_branch(path: &str, commit: CommitHash, branch: LocalBranchRef) -> (worktree: Self)
        ensures
            worktree@ == (WorktreeModel {
                path: path@,
                head: HeadModel::Branch(commit@, branch@),
                is_main: false,
                locked: None,
                prunable: None,
            }),
    {
        Worktree {
            path: path.to_owned(),
            head: WorktreeHead::Branch(commit, branch),
            is_main: false,
            locked: None,
            prunable: None,
        }
    }

    /// This worktree, marked as the main worktree or as a linked one.
    pub fn with_is_main(self, is_main: bool) -> (worktree: Self)
        ensures
            worktree@ == spec_with_is_main(self@, is_main),
    {
        Worktree { is_main, ..self }
    }

    /// This worktree, locked for the reason `locked`.
    pub fn with_locked(self, locked: &str) -> (worktree: Self)
        ensures
            worktree@ == (WorktreeModel { locked: Some(locked@), ..self@ }),
    {
        Worktree { locked: Some(locked.to_owned()), ..self }
    }

    /// This worktree, prunable for the reason `prunable`.
    pub fn with_prunable(self, prunable: &str) -> (worktree: Self)
        ensures
            worktree@ == (WorktreeModel { prunable: Some(prunable@), ..self@ }),
    {
        Worktree { prunable: Some(prunable.to_owned()), ..self }
    }

    /// Parses a single block that fills the whole input.
    pub fn parser(input: &str) -> (parsed: Result<Self, ParseError>)
        ensures
            match parsed {
                Ok(worktree) => spec_worktree_at(input@, 0) == Ok::<_, Failure>(
                    (worktree@, input@.len() as int),
                ),
                Err(error) => match spec_worktree_at(input@, 0) {
                    Ok((worktree, next)) => next < input@.len() && error@ == malformed(next),
                    Err(failure) => error@ == failure,
                },
            },
    {
        let chars = to_chars(input);
        proof {
            lemma_worktree_at(input@, 0);
        }
        match Self::parse_at(input, &chars, 0) {
            Ok((worktree, next)) => {
                if next == chars.len() {
                    Ok(worktree)
                } else {
                    Err(malformed_at(next))
                }
            },
            Err(error) => Err(error),
        }
    }

    /// Reads the optional line that starts at `pos` with `keyword`.
    fn parse_reason_at(input: &str, chars: &Vec<char>, pos: usize, keyword: &str) -> (found: Option<
        (String, usize),
    >)
        requires
            chars@ == input@,
            pos <= chars@.len(),
        ensures
            match found {
                Some((reason, next)) => spec_reason_at(input@, pos as int, keyword@) == Some(
                    (reason@, next as int),
                ),
                None => spec_reason_at(input@, pos as int, keyword@) is None,
            },
    {
        let at = match literal_at(chars, pos, keyword) {
            Some(next) => next,
            None => {
                return None;
            },
        };
        if at >= chars.len() {
            None
        } else if chars[at] == ' ' {
            match till_null_at(input, chars, at + 1) {
                Ok((reason, next)) => Some((reason, next)),
                Err(_) => None,
            }
        } else if chars[at] == '\0' {
            Some((String::new(), at + 1))
        } else {
            None
        }
    }

    /// Reads the block that starts at `pos`.
    pub(crate) fn parse_at(input: &str, chars: &Vec<char>, pos: usize) -> (parsed: Result<
        (Self, usize),
        ParseError,
    >)
        requires
            chars@ == input@,
            pos <= chars@.len(),
        ensures
            match parsed {
                Ok((worktree, next)) => spec_worktree_at(input@, pos as int) == Ok::<_, Failure>(
                    (worktree@, next as int),
                ),
                Err(error) => spec_worktree_at(input@, pos as int) == Err::<(WorktreeModel, int), _>(
                    error@,
                ),
            },
    {
        let path_at = match literal_at(chars, pos, "worktree ") {
            Some(next) => next,
            None => {
                return Err(malformed_at(pos));
            },
        };
        proof {
            lemma_till_null(input@, path_at as int);
        }
        let (path, head_at) = match till_null_at(input, chars, path_at) {
            Ok(found) => found,
            Err(offset) => {
                return Err(malformed_at(offset));
            },
        };
        proof {
            lemma_head_at(input@, head_at as int);
        }
        let (head, locked_at) = match WorktreeHead::parse_at(input, chars, head_at) {
            Ok(found) => found,
            Err(error) => {
                return Err(error);
            },
        };
        proof {
            lemma_reason_at(input@, locked_at as int, "locked"@);
        }
        let (locked, prunable_at) = match Self::parse_reason_at(input, chars, locked_at, "locked") {
            Some((reason, next)) => (Some(reason), next),
            None => (None, locked_at),
        };
        proof {
            lemma_reason_at(input@, prunable_at as int, "prunable"@);
        }
        let (prunable, end) = match Self::parse_reason_at(input, chars, prunable_at, "prunable") {
            Some((reason, next)) => (Some(reason), next),
            None => (None, prunable_at),
        };
        if end < chars.len() && chars[end] == '\0' {
            Ok((Worktree { path, head, is_main: false, locked, prunable }, end + 1))
        } else {
            Err(malformed_at(end))
        }
    }
}

/// An optional line that is there ends after where it starts, inside the input.
pub proof fn lemma_reason_at(s: Seq<char>, pos: int, keyword: Seq<char>)
    requires
        0 <= pos <= s.len(),
    ensures
        pos <= spec_after_reason(s, pos, keyword) <= s.len(),
{
    if spec_matches_at(s, pos, keyword) && pos + keyword.len() < s.len() {
        lemma_till_null(s, pos + keyword.len() + 1);
    }
}

/// A block that parses ends after where it starts, inside the input, and is not
/// marked as main.
pub proof fn lemma_worktree_at(s: Seq<char>, pos: int)
    requires
        0 <= pos <= s.len(),
    ensures
        match spec_worktree_at(s, pos) {
            Ok((worktree, next)) => pos < next <= s.len() && !worktree.is_main,
            Err(failure) => pos <= failure.offset <= s.len(),
        },
{
    if spec_matches_at(s, pos, "worktree "@) {
        lemma_till_null(s, pos + "worktree "@.len());
        if let Ok((path, head_at)) = spec_till_null(s, pos + "worktree "@.len()) {
            lemma_head_at(s, head_at);
            if let Ok((head, locked_at)) = spec_head_at(s, head_at) {
                lemma_reason_at(s, locked_at, "locked"@);
                lemma_reason_at(s, spec_after_reason(s, locked_at, "locked"@), "prunable"@);
            }
        }
    }
}

/// The views of the worktrees of `list`.
pub open spec fn worktree_views(list: Seq<Worktree>) -> Seq<WorktreeModel> {
    list.map_values(|worktree: Worktree| worktree@)
}

/// The position in `list` of the first worktree at the path `path`.
fn index_of_path(list: &Vec<Worktree>, path: &str) -> (found: Option<usize>)
    ensures
        match found {
            Some(at) => at == spec_index_of_path(worktree_views(list@), path@),
            None => spec_index_of_path(worktree_views(list@), path@) == -1,
        },
{
    let mut k: usize = 0;
    while k < list.len()
        invariant
            k <= list@.len(),
            forall|j: int| 0 <= j < k ==> !same_path((#[trigger] worktree_views(list@)[j]).path, path@),
        decreases list@.len() - k,
    {
        if is_same_path(list[k].path.as_str(), path) {
            proof {
                assert(same_path(worktree_views(list@)[k as int].path, path@));
                lemma_index_of_path(worktree_views(list@), path@);
            }
            return Some(k);
        }
        k = k + 1;
    }
    proof {
        lemma_index_of_path(worktree_views(list@), path@);
    }
    None
}

/// Enters `worktree` into `list` under its path.
fn enter(list: &mut Vec<Worktree>, worktree: Worktree)
    ensures
        worktree_views(final(list)@) == spec_enter(worktree_views(old(list)@), worktree@),
{
    match index_of_path(list, worktree.path.as_str()) {
        None => {
            list.push(worktree);
            assert(worktree_views(list@) =~= worktree_views(old(list)@).push(worktree@));
        },
        Some(at) => {
            proof {
                lemma_index_of_path(worktree_views(list@), worktree.path@);
            }
            if at > 0 {
                list.set(at, worktree);
                assert(worktree_views(list@) =~= worktree_views(old(list)@).update(
                    at as int,
                    worktree@,
                ));
            }
        },
    }
}

/// The position at or after `from` of the first worktree of `list` that has the
/// branch `branch` checked out, or `list.len()`.
pub open spec fn spec_index_on_branch(list: Seq<WorktreeModel>, branch: Seq<char>, from: int) -> int
    decreases list.len() - from,
{
    if from < 0 || from >= list.len() {
        list.len() as int
    } else if list[from].head.branch() == Some(branch) {
        from
    } else {
        spec_index_on_branch(list, branch, from + 1)
    }
}

/// The position at or after `from` of the first worktree of `list` that is not bare,
/// or `list.len()`.
pub open spec fn spec_index_not_bare(list: Seq<WorktreeModel>, from: int) -> int
    decreases list.len() - from,
{
    if from < 0 || from >= list.len() {
        list.len() as int
    } else if !(list[from].head is Bare) {
        from
    } else {
        spec_index_not_bare(list, from + 1)
    }
}

/// The first worktree on `branch` is on `branch`, and no worktree before it is.
pub proof fn lemma_index_on_branch(list: Seq<WorktreeModel>, branch: Seq<char>, from: int)
    requires
        0 <= from <= list.len(),
    ensures
        from <= spec_index_on_branch(list, branch, from) <= list.len(),
        spec_index_on_branch(list, branch, from) < list.len() ==> list[spec_index_on_branch(
            list,
            branch,
            from,
        )].head.branch() == Some(branch),
        forall|k: int|
            from <= k < spec_index_on_branch(list, branch, from) ==> (#[trigger] list[k]).head.branch()
                != Some(branch),
    decreases list.len() - from,
{
    if from < list.len() && list[from].head.branch() != Some(branch) {
        lemma_index_on_branch(list, branch, from + 1);
    }
}

/// The worktrees of `list` after the main worktree has been found to stand at `path`:
/// the main worktree takes that path, and a linked worktree that was listed there
/// gives way. Nothing changes where the main worktree is at `path` already.
///
/// git lists a bare main worktree whose directory is named `.git` under the parent of
/// that directory; the true path is the common git directory.
pub open spec fn spec_with_main_path(list: Seq<WorktreeModel>, path: Seq<char>) -> Seq<WorktreeModel> {
    let linked = list.skip(1);
    let at = spec_index_of_path(linked, path);
    let main = WorktreeModel { path, ..list[0] };
    if list.len() == 0 || same_path(list[0].path, path) {
        list
    } else if at < 0 {
        seq![main] + linked
    } else {
        seq![main] + linked.remove(at)
    }
}

/// Moving the main worktree keeps a set of worktrees well formed.
pub proof fn lemma_with_main_path_well_formed(list: Seq<WorktreeModel>, path: Seq<char>)
    requires
        well_formed(list),
    ensures
        well_formed(spec_with_main_path(list, path)),
{
    let linked = list.skip(1);
    let at = spec_index_of_path(linked, path);
    let moved = spec_with_main_path(list, path);
    lemma_index_of_path(linked, path);
    if !same_path(list[0].path, path) {
        if at < 0 {
            assert forall|k: int| 0 < k < moved.len() implies !(#[trigger] moved[k]).is_main by {
                assert(moved[k] == list[k]);
            }
            assert forall|j: int, k: int| 0 <= j < k < moved.len() implies !same_path(
                (#[trigger] moved[j]).path,
                (#[trigger] moved[k]).path,
            ) by {
                assert(moved[k] == list[k]);
                assert(linked[k - 1] == list[k]);
                if j > 0 {
                    assert(moved[j] == list[j]);
                }
            }
        } else {
            assert forall|k: int| 0 < k < moved.len() implies !(#[trigger] moved[k]).is_main by {
                if k - 1 < at {
                    assert(moved[k] == list[k]);
                } else {
                    assert(moved[k] == list[k + 1]);
                }
            }
            assert forall|j: int, k: int| 0 <= j < k < moved.len() implies !same_path(
                (#[trigger] moved[j]).path,
                (#[trigger] moved[k]).path,
            ) by {
                let from_k = if k - 1 < at {
                    k
                } else {
                    k + 1
                };
                assert(moved[k] == list[from_k]);
                assert(linked[at] == list[at + 1]);
                if j > 0 {
                    let from_j = if j - 1 < at {
                        j
                    } else {
                        j + 1
                    };
                    assert(moved[j] == list[from_j]);
                } else {
                    assert(!same_path(list[at + 1].path, list[from_k].path) || !same_path(
                        list[from_k].path,
                        list[at + 1].path,
                    ));
                }
            }
        }
    }
}

/// A set of git worktrees. Exactly one of them is the main worktree; it comes first.
/// No two worktrees of the set stand at the same path.
#[derive(Debug, PartialEq, Eq)]
pub struct Worktrees {
    /// The worktrees, the main one first, the linked ones in the order of the listing.
    inner: Vec<Worktree>,
}

impl View for Worktrees {
    type V = Seq<WorktreeModel>;

    closed spec fn view(&self) -> Seq<WorktreeModel> {
        worktree_views(self.inner@)
    }
}

impl Clone for Worktrees {
    fn clone(&self) -> (copy: Self)
        ensures
            copy@ == self@,
    {
        proof {
            use_type_invariant(self);
        }
        let mut inner: Vec<Worktree> = Vec::new();
        let mut k: usize = 0;
        while k < self.inner.len()
            invariant
                k <= self.inner@.len(),
                worktree_views(inner@) == worktree_views(self.inner@).take(k as int),
            decreases self.inner@.len() - k,
        {
            let ghost before = worktree_views(inner@);
            inner.push(self.inner[k].clone());
            assert(worktree_views(inner@) =~= before.push(self.inner@[k as int]@));
            assert(worktree_views(inner@) =~= worktree_views(self.inner@).take(k + 1));
            k = k + 1;
        }
        assert(worktree_views(self.inner@).take(k as int) =~= worktree_views(self.inner@));
        Worktrees { inner }
    }
}

impl std::str::FromStr for Worktrees {
    type Err = ParseError;

    fn from_str(input: &str) -> (parsed: Result<Self, ParseError>)
        ensures
            match parsed {
                Ok(worktrees) => spec_parse_worktrees(input@) == Ok::<_, Failure>(worktrees@)
                    && well_formed(worktrees@) && spec_count_main(worktrees@) == 1,
                Err(error) => spec_parse_worktrees(input@) == Err::<Seq<WorktreeModel>, _>(error@),
            },
    {
        Self::parser(input)
    }
}

impl Worktrees {
    #[verifier::type_invariant]
    spec fn one_main_first(self) -> bool {
        well_formed(worktree_views(self.inner@))
    }

    /// The set made of a main worktree and linked ones. `main` is marked as main, the
    /// others as linked, whatever they were marked as before.
    pub fn new(main: Worktree, linked: Vec<Worktree>) -> (made: Self)
        ensures
            made@ == spec_assemble(main@, worktree_views(linked@)),
            well_formed(made@),
    {
        let ghost first = spec_with_is_main(main@, true);
        let ghost marked = worktree_views(linked@).map_values(
            |worktree: WorktreeModel| spec_with_is_main(worktree, false),
        );
        let mut inner: Vec<Worktree> = Vec::new();
        inner.push(main.with_is_main(true));
        assert(worktree_views(inner@) =~= seq![first]);
        assert(marked.take(0) =~= Seq::<WorktreeModel>::empty());
        let mut k: usize = 0;
        while k < linked.len()
            invariant
                k <= linked@.len(),
                marked == worktree_views(linked@).map_values(
                    |worktree: WorktreeModel| spec_with_is_main(worktree, false),
                ),
                worktree_views(inner@) == spec_enter_all(seq![first], marked.take(k as int)),
            decreases linked@.len() - k,
        {
            proof {
                assert(marked.take(k + 1).drop_last() =~= marked.take(k as int));
                assert(marked.take(k + 1).last() == spec_with_is_main(linked@[k as int]@, false));
            }
            enter(&mut inner, linked[k].clone().with_is_main(false));
            k = k + 1;
        }
        proof {
            assert(marked.take(k as int) =~= marked);
            lemma_enter_all_well_formed(seq![first], marked);
        }
        Worktrees { inner }
    }

    /// The path of the main worktree. This holds the common `.git` directory or, for a
    /// bare repository, is that directory.
    pub fn main_path(&self) -> (path: &str)
        ensures
            well_formed(self@),
            path@ == self@[0].path,
    {
        proof {
            use_type_invariant(self);
        }
        self.inner[0].path.as_str()
    }

    /// The main worktree.
    pub fn main(&self) -> (main: &Worktree)
        ensures
            well_formed(self@),
            main@ == self@[0],
    {
        proof {
            use_type_invariant(self);
        }
        &self.inner[0]
    }

    /// The main worktree, the others dropped.
    pub fn into_main(self) -> (main: Worktree)
        ensures
            well_formed(self@),
            main@ == self@[0],
    {
        proof {
            use_type_invariant(&self);
        }
        self.inner[0].clone()
    }

    /// The worktrees, the main one first.
    pub fn into_inner(self) -> (list: Vec<Worktree>)
        ensures
            well_formed(self@),
            worktree_views(list@) == self@,
    {
        proof {
            use_type_invariant(&self);
        }
        self.inner
    }

    /// The worktrees, the main one first.
    pub fn as_vec(&self) -> (list: &Vec<Worktree>)
        ensures
            well_formed(self@),
            worktree_views(list@) == self@,
    {
        proof {
            use_type_invariant(self);
        }
        &self.inner
    }

    /// The worktrees as they are shown, one to a line.
    pub fn to_string(&self) -> (text: String)
        ensures
            text@ == crate::text::spec_join(
                self@.map_values(|worktree: WorktreeModel| worktree.describe()),
                "\n"@,
            ),
    {
        let mut shown: Vec<String> = Vec::new();
        let ghost wanted = self@.map_values(|worktree: WorktreeModel| worktree.describe());
        let mut k: usize = 0;
        assert(crate::text::views(shown@) =~= wanted.take(0));
        while k < self.inner.len()
            invariant
                k <= self.inner@.len(),
                wanted == self@.map_values(|worktree: WorktreeModel| worktree.describe()),
                crate::text::views(shown@) == wanted.take(k as int),
            decreases self.inner@.len() - k,
        {
            let ghost before = crate::text::views(shown@);
            assert(self@[k as int] == self.inner[k as int]@);
            shown.push(self.inner[k].to_string());
            assert(crate::text::views(shown@) =~= before.push(self@[k as int].describe()));
            assert(crate::text::views(shown@) =~= wanted.take(k + 1));
            k = k + 1;
        }
        assert(wanted.take(k as int) =~= wanted);
        crate::text::join(&shown, "\n")
    }

    /// How many worktrees there are: at least one.
    pub fn len(&self) -> (count: usize)
        ensures
            count == self@.len(),
            count > 0,
    {
        proof {
            use_type_invariant(self);
        }
        self.inner.len()
    }

    /// The first worktree that has `branch` checked out, if one has.
    pub fn for_branch(&self, branch: &LocalBranchRef) -> (found: Option<&Worktree>)
        ensures
            match found {
                Some(worktree) => 0 <= spec_index_on_branch(self@, branch@, 0) < self@.len()
                    && worktree@ == self@[spec_index_on_branch(self@, branch@, 0)],
                None => spec_index_on_branch(self@, branch@, 0) == self@.len(),
            },
    {
        let mut k: usize = 0;
        while k < self.inner.len()
            invariant
                k <= self.inner@.len(),
                spec_index_on_branch(self@, branch@, 0) == spec_index_on_branch(
                    self@,
                    branch@,
                    k as int,
                ),
            decreases self.inner@.len() - k,
        {
            let on_branch = match self.inner[k].head.branch() {
                Some(checked_out) => str_eq(checked_out.branch_name(), branch.branch_name()),
                None => false,
            };
            assert(self@[k as int] == self.inner[k as int]@);
            if on_branch {
                return Some(&self.inner[k]);
            }
            k = k + 1;
        }
        None
    }

    /// The first worktree that is not bare, if there is one.
    pub fn first_not_bare(&self) -> (found: Option<&Worktree>)
        ensures
            match found {
                Some(worktree) => 0 <= spec_index_not_bare(self@, 0) < self@.len() && worktree@
                    == self@[spec_index_not_bare(self@, 0)],
                None => spec_index_not_bare(self@, 0) == self@.len(),
            },
    {
        let mut k: usize = 0;
        while k < self.inner.len()
            invariant
                k <= self.inner@.len(),
                spec_index_not_bare(self@, 0) == spec_index_not_bare(self@, k as int),
            decreases self.inner@.len() - k,
        {
            assert(self@[k as int] == self.inner[k as int]@);
            if !self.inner[k].head.is_bare() {
                return Some(&self.inner[k]);
            }
            k = k + 1;
        }
        None
    }

    /// Parses the listing of `git worktree list --porcelain -z`.
    pub fn parser(input: &str) -> (parsed: Result<Self, ParseError>)
        ensures
            match parsed {
                Ok(worktrees) => spec_parse_worktrees(input@) == Ok::<_, Failure>(worktrees@)
                    && well_formed(worktrees@) && spec_count_main(worktrees@) == 1,
                Err(error) => spec_parse_worktrees(input@) == Err::<Seq<WorktreeModel>, _>(error@),
            },
    {
        let chars = to_chars(input);
        proof {
            lemma_worktree_at(input@, 0);
            lemma_parsed_worktrees_have_one_main(input@);
        }
        let (main, start) = match Worktree::parse_at(input, &chars, 0) {
            Ok(found) => found,
            Err(error) => {
                return Err(error);
            },
        };
        let mut linked: Vec<Worktree> = Vec::new();
        let mut pos: usize = start;
        assert(Seq::<WorktreeModel>::empty() + spec_worktree_blocks(input@, start as int)->Ok_0
            =~= spec_worktree_blocks(input@, start as int)->Ok_0);
        while pos < chars.len()
            invariant
                chars@ == input@,
                start <= pos <= chars@.len(),
                spec_worktree_at(input@, 0) == Ok::<_, Failure>((main@, start as int)),
                forall|k: int| 0 <= k < linked@.len() ==> !(#[trigger] worktree_views(linked@)[k]).is_main,
                spec_worktree_blocks(input@, start as int) == match spec_worktree_blocks(
                    input@,
                    pos as int,
                ) {
                    Ok(rest) => Ok::<_, Failure>(worktree_views(linked@) + rest),
                    Err(failure) => Err(failure),
                },
            decreases chars@.len() - pos,
        {
            proof {
                lemma_worktree_at(input@, pos as int);
            }
            match Worktree::parse_at(input, &chars, pos) {
                Ok((block, next)) => {
                    proof {
                        let before = worktree_views(linked@);
                        if let Ok(rest) = spec_worktree_blocks(input@, next as int) {
                            assert(before + (seq![block@] + rest) =~= before.push(block@) + rest);
                        }
                    }
                    let ghost before = worktree_views(linked@);
                    linked.push(block);
                    assert(worktree_views(linked@) =~= before.push(block@));
                    pos = next;
                },
                Err(error) => {
                    return Err(error);
                },
            }
        }
        proof {
            let blocks = worktree_views(linked@);
            assert(blocks + Seq::<WorktreeModel>::empty() =~= blocks);
            assert(blocks.map_values(|worktree: WorktreeModel| spec_with_is_main(worktree, false))
                =~= blocks);
        }
        Ok(Worktrees::new(main, linked))
    }

    /// Moves the main worktree to `path`; see [`spec_with_main_path`].
    pub fn with_main_path(self, path: &str) -> (moved: Self)
        ensures
            moved@ == spec_with_main_path(self@, path@),
            well_formed(moved@),
    {
        proof {
            use_type_invariant(&self);
            lemma_with_main_path_well_formed(self@, path@);
        }
        if is_same_path(self.inner[0].path.as_str(), path) {
            return self;
        }
        let ghost old_list = worktree_views(self.inner@);
        let mut rest = self.inner;
        let mut main = rest.remove(0);
        main.path = path.to_owned();
        assert(worktree_views(rest@) =~= old_list.skip(1));
        match index_of_path(&rest, path) {
            Some(at) => {
                proof {
                    lemma_index_of_path(worktree_views(rest@), path@);
                }
                rest.remove(at);
                assert(worktree_views(rest@) =~= old_list.skip(1).remove(at as int));
            },
            None => {},
        }
        let ghost linked = worktree_views(rest@);
        rest.insert(0, main);
        assert(worktree_views(rest@) =~= seq![main@] + linked);
        let inner = rest;
        Worktrees { inner }
    }

    /// Parses the listing of `git worktree list --porcelain -z` and, where the main
    /// worktree is bare, moves it to `git_common_dir`, the repository's common git
    /// directory.
    pub fn parse(input: &str, git_common_dir: &str) -> (parsed: Result<Self, ParseError>)
        ensures
            match parsed {
                Ok(worktrees) => well_formed(worktrees@) && (spec_parse_worktrees(input@) matches Ok(
                    listed,
                ) && worktrees@ == if listed[0].head is Bare {
                    spec_with_main_path(listed, git_common_dir@)
                } else {
                    listed
                }),
                Err(error) => spec_parse_worktrees(input@) == Err::<Seq<WorktreeModel>, _>(error@),
            },
    {
        match Self::parser(input) {
            Ok(listed) => {
                if listed.main().head.is_bare() {
                    Ok(listed.with_main_path(git_common_dir))
                } else {
                    Ok(listed)
                }
            },
            Err(error) => Err(error),
        }
    }
}

/// Whether `text` can stand as a reason: it holds no NUL.
pub open spec fn is_reason(text: Seq<char>) -> bool {
    forall|k: int| 0 <= k < text.len() ==> text[k] != '\0'
}

/// The optional line of `keyword` with the reason `reason`, as the listing has it.
pub open spec fn spec_reason_porcelain(keyword: Seq<char>, reason: Option<Seq<char>>) -> Seq<char> {
    match reason {
        None => Seq::empty(),
        Some(text) => if text.len() == 0 {
            keyword + seq!['\0']
        } else {
            keyword + seq![' '] + text + seq!['\0']
        },
    }
}

impl HeadModel {
    /// What a parser can produce: commit hashes that are commit hashes, and a branch
    /// name that is not empty and holds no NUL.
    pub open spec fn well_formed(self) -> bool {
        match self {
            HeadModel::Bare => true,
            HeadModel::Detached(hash) => is_commit_hash(hash),
            HeadModel::Branch(hash, name) => is_commit_hash(hash) && name.len() > 0 && is_reason(
                name,
            ),
        }
    }

    /// The lines of the head, as the listing has them.
    pub open spec fn porcelain(self) -> Seq<char> {
        match self {
            HeadModel::Bare => "bare\0"@,
            HeadModel::Detached(hash) => "HEAD "@ + hash + seq!['\0'] + "detached\0"@,
            HeadModel::Branch(hash, name) => "HEAD "@ + hash + seq!['\0'] + "branch "@ + (
            "refs/heads/"@ + name) + seq!['\0'],
        }
    }
}

impl WorktreeModel {
    /// What a parser can produce as a block: a path that is not empty, a well-formed
    /// head, no NUL anywhere, and no mark as the main worktree.
    pub open spec fn well_formed_block(self) -> bool {
        &&& self.path.len() > 0
        &&& is_reason(self.path)
        &&& self.head.well_formed()
        &&& !self.is_main
        &&& self.locked matches Some(reason) ==> is_reason(reason)
        &&& self.prunable matches Some(reason) ==> is_reason(reason)
    }

    /// The block of the worktree, as the listing has it.
    pub open spec fn porcelain(self) -> Seq<char> {
        "worktree "@ + self.path + seq!['\0'] + self.head.porcelain() + spec_reason_porcelain(
            "locked"@,
            self.locked,
        ) + spec_reason_porcelain("prunable"@, self.prunable) + seq!['\0']
    }
}

/// The blocks of `list`, one after the other.
pub open spec fn spec_porcelain(list: Seq<WorktreeModel>) -> Seq<char>
    decreases list.len(),
{
    if list.len() == 0 {
        Seq::empty()
    } else {
        list[0].porcelain() + spec_porcelain(list.skip(1))
    }
}

/// A well-formed head that is written is read back, whatever stands around it.
#[verifier::rlimit(50)]
pub proof fn lemma_head_round_trip(before: Seq<char>, head: HeadModel, after: Seq<char>)
    requires
        head.well_formed(),
    ensures
        spec_head_at(before + head.porcelain() + after, before.len() as int) == Ok::<_, Failure>(
            (head, (before.len() + head.porcelain().len()) as int),
        ),
{
    reveal_strlit("bare\0");
    reveal_strlit("HEAD ");
    reveal_strlit("branch ");
    reveal_strlit("detached\0");
    reveal_strlit("refs/heads/");
    reveal_strlit("refs/");
    reveal_strlit("heads");
    reveal_strlit("/");
    let s = before + head.porcelain() + after;
    let pos = before.len() as int;
    lemma_matches_written(before, "bare\0"@, after);
    match head {
        HeadModel::Bare => {},
        HeadModel::Detached(hash) => {
            assert(s[pos] == 'H');
            lemma_matches_first(s, pos, "bare\0"@);
            let rest = "detached\0"@ + after;
            assert(s =~= before + "HEAD "@ + (hash + seq!['\0'] + rest));
            lemma_matches_written(before, "HEAD "@, hash + seq!['\0'] + rest);
            assert forall|k: int| 0 <= k < hash.len() implies hash[k] != '\0' by {
                assert(crate::git::commit_hash::is_hex_digit(hash[k]));
            }
            assert(s =~= (before + "HEAD "@) + hash + seq!['\0'] + rest);
            lemma_till_null_reads_field(before + "HEAD "@, hash, rest);
            lemma_parse_commit_hash(hash);
            let next = pos + 5 + 40 + 1;
            assert(s[next] == 'd');
            lemma_matches_first(s, next, "branch "@);
            assert(s =~= (before + "HEAD "@ + hash + seq!['\0']) + "detached\0"@ + after);
            lemma_matches_written(before + "HEAD "@ + hash + seq!['\0'], "detached\0"@, after);
        },
        HeadModel::Branch(hash, name) => {
            assert(s[pos] == 'H');
            lemma_matches_first(s, pos, "bare\0"@);
            let full = "refs/heads/"@ + name;
            let rest = "branch "@ + full + seq!['\0'] + after;
            assert(s =~= before + "HEAD "@ + (hash + seq!['\0'] + rest));
            lemma_matches_written(before, "HEAD "@, hash + seq!['\0'] + rest);
            assert forall|k: int| 0 <= k < hash.len() implies hash[k] != '\0' by {
                assert(crate::git::commit_hash::is_hex_digit(hash[k]));
            }
            assert(s =~= (before + "HEAD "@) + hash + seq!['\0'] + rest);
            lemma_till_null_reads_field(before + "HEAD "@, hash, rest);
            lemma_parse_commit_hash(hash);
            let front = before + "HEAD "@ + hash + seq!['\0'];
            assert(s =~= front + "branch "@ + (full + seq!['\0'] + after));
            lemma_matches_written(front, "branch "@, full + seq!['\0'] + after);
            assert forall|k: int| 0 <= k < full.len() implies full[k] != '\0' by {
                if k >= 11 {
                    assert(full[k] == name[k - 11]);
                }
            }
            assert(s =~= (front + "branch "@) + full + seq!['\0'] + after);
            lemma_till_null_reads_field(front + "branch "@, full, after);
            let model = RefModel { kind: "heads"@, name };
            assert(model.qualified() =~= full);
            crate::git::refs::name::lemma_qualified_then_parse(model);
        },
    }
}

/// An optional line that is written is read back; where none is written, and what
/// follows does not begin with the keyword, none is read.
pub proof fn lemma_reason_round_trip(
    before: Seq<char>,
    keyword: Seq<char>,
    reason: Option<Seq<char>>,
    after: Seq<char>,
)
    requires
        reason matches Some(text) ==> is_reason(text),
        reason is None ==> !spec_matches_at(before + after, before.len() as int, keyword),
    ensures
        spec_reason(before + spec_reason_porcelain(keyword, reason) + after, before.len() as int, keyword)
            == reason,
        spec_after_reason(
            before + spec_reason_porcelain(keyword, reason) + after,
            before.len() as int,
            keyword,
        ) == before.len() + spec_reason_porcelain(keyword, reason).len(),
{
    let s = before + spec_reason_porcelain(keyword, reason) + after;
    let pos = before.len() as int;
    match reason {
        None => {
            assert(s =~= before + after);
        },
        Some(text) => {
            let at = pos + keyword.len();
            if text.len() == 0 {
                assert(s =~= before + keyword + (seq!['\0'] + after));
                lemma_matches_written(before, keyword, seq!['\0'] + after);
                assert(s[at] == '\0');
                assert(text =~= Seq::<char>::empty());
            } else {
                assert(s =~= before + keyword + (seq![' '] + text + seq!['\0'] + after));
                lemma_matches_written(before, keyword, seq![' '] + text + seq!['\0'] + after);
                assert(s[at] == ' ');
                assert(s =~= (before + keyword + seq![' ']) + text + seq!['\0'] + after);
                lemma_till_null_reads_field(before + keyword + seq![' '], text, after);
            }
        },
    }
}

/// A well-formed block that is written is read back, whatever stands around it.
#[verifier::rlimit(50)]
pub proof fn lemma_worktree_round_trip(before: Seq<char>, worktree: WorktreeModel, after: Seq<char>)
    requires
        worktree.well_formed_block(),
    ensures
        spec_worktree_at(before + worktree.porcelain() + after, before.len() as int) == Ok::<
            _,
            Failure,
        >((worktree, (before.len() + worktree.porcelain().len()) as int)),
        worktree.porcelain().len() > 0,
{
    let s = before + worktree.porcelain() + after;
    let keyword = "worktree "@;
    let nul = seq!['\0'];
    let head = worktree.head.porcelain();
    let locked = spec_reason_porcelain("locked"@, worktree.locked);
    let prunable = spec_reason_porcelain("prunable"@, worktree.prunable);
    // What is written up to each part, and what follows each part.
    let upto_keyword = before + keyword;
    let upto_path = upto_keyword + worktree.path;
    let upto_head_start = upto_path + nul;
    let upto_head = upto_head_start + head;
    let upto_locked = upto_head + locked;
    let upto_prunable = upto_locked + prunable;
    let from_end = nul + after;
    let from_prunable = prunable + from_end;
    let from_locked = locked + from_prunable;
    let from_head = head + from_locked;
    let from_nul = nul + from_head;
    let from_path = worktree.path + from_nul;
    assert(s == upto_prunable + from_end) by {
        let block = worktree.porcelain();
        lemma_concat_assoc(before, keyword, worktree.path);
        lemma_concat_assoc(before, keyword + worktree.path, nul);
        lemma_concat_assoc(before, keyword + worktree.path + nul, head);
        lemma_concat_assoc(before, keyword + worktree.path + nul + head, locked);
        lemma_concat_assoc(before, keyword + worktree.path + nul + head + locked, prunable);
        lemma_concat_assoc(
            before,
            keyword + worktree.path + nul + head + locked + prunable,
            nul,
        );
        assert(before + block == upto_prunable + nul);
        lemma_concat_assoc(upto_prunable, nul, after);
    }
    assert(s == upto_locked + from_prunable) by {
        lemma_concat_assoc(upto_locked, prunable, from_end);
    }
    assert(s == upto_head + from_locked) by {
        lemma_concat_assoc(upto_head, locked, from_prunable);
    }
    assert(s == upto_head_start + from_head) by {
        lemma_concat_assoc(upto_head_start, head, from_locked);
    }
    assert(s == upto_path + from_nul) by {
        lemma_concat_assoc(upto_path, nul, from_head);
    }
    assert(s == upto_keyword + from_path) by {
        lemma_concat_assoc(upto_keyword, worktree.path, from_nul);
    }
    assert(spec_matches_at(s, before.len() as int, keyword)) by {
        lemma_matches_written(before, keyword, from_path);
    }
    assert(spec_till_null(s, upto_keyword.len() as int) == Ok::<_, int>(
        (worktree.path, upto_head_start.len() as int),
    )) by {
        lemma_till_null_reads_field(upto_keyword, worktree.path, from_head);
    }
    assert(spec_head_at(s, upto_head_start.len() as int) == Ok::<_, Failure>(
        (worktree.head, upto_head.len() as int),
    )) by {
        lemma_head_round_trip(upto_head_start, worktree.head, from_locked);
    }
    assert(spec_reason(s, upto_head.len() as int, "locked"@) == worktree.locked
        && spec_after_reason(s, upto_head.len() as int, "locked"@) == upto_locked.len()) by {
        if worktree.locked is None {
            reveal_strlit("locked");
            reveal_strlit("prunable");
            let next = upto_head + from_prunable;
            assert(next[upto_head.len() as int] == from_prunable[0]);
            assert(from_prunable[0] == 'p' || from_prunable[0] == '\0');
            lemma_matches_first(next, upto_head.len() as int, "locked"@);
        }
        lemma_reason_round_trip(upto_head, "locked"@, worktree.locked, from_prunable);
    }
    assert(spec_reason(s, upto_locked.len() as int, "prunable"@) == worktree.prunable
        && spec_after_reason(s, upto_locked.len() as int, "prunable"@) == upto_prunable.len()) by {
        if worktree.prunable is None {
            reveal_strlit("prunable");
            let next = upto_locked + from_end;
            assert(next[upto_locked.len() as int] == '\0');
            lemma_matches_first(next, upto_locked.len() as int, "prunable"@);
        }
        lemma_reason_round_trip(upto_locked, "prunable"@, worktree.prunable, from_end);
    }
    assert(s[upto_prunable.len() as int] == '\0');
    assert(upto_prunable.len() + 1 == before.len() + worktree.porcelain().len());
}

/// Well-formed blocks that are written are read back, one after the other.
#[verifier::rlimit(50)]
pub proof fn lemma_blocks_round_trip(before: Seq<char>, list: Seq<WorktreeModel>)
    requires
        forall|k: int| 0 <= k < list.len() ==> (#[trigger] list[k]).well_formed_block(),
    ensures
        spec_worktree_blocks(before + spec_porcelain(list), before.len() as int) == Ok::<_, Failure>(
            list,
        ),
    decreases list.len(),
{
    if list.len() == 0 {
        assert(before + spec_porcelain(list) =~= before);
        assert(list =~= Seq::<WorktreeModel>::empty());
    } else {
        let first = list[0];
        let rest = list.skip(1);
        let tail = spec_porcelain(rest);
        assert(first.well_formed_block());
        assert forall|k: int| 0 <= k < rest.len() implies (#[trigger] rest[k]).well_formed_block() by {
            assert(rest[k] == list[k + 1]);
        }
        let block = first.porcelain();
        let s = before + spec_porcelain(list);
        let next = (before.len() + block.len()) as int;
        assert(s == before + block + tail) by {
            lemma_concat_assoc(before, block, tail);
        }
        assert(spec_worktree_at(s, before.len() as int) == Ok::<_, Failure>((first, next))
            && next > before.len()) by {
            lemma_worktree_round_trip(before, first, tail);
        }
        assert(spec_worktree_blocks(s, next) == Ok::<_, Failure>(rest)) by {
            lemma_blocks_round_trip(before + block, rest);
        }
        assert(before.len() < s.len());
        assert(seq![first] + rest =~= list);
    }
}

/// A listing of well-formed blocks that is written is read back: the first block is
/// the main worktree, and the blocks after it are entered under their paths.
pub proof fn lemma_worktrees_round_trip(main: WorktreeModel, linked: Seq<WorktreeModel>)
    requires
        main.well_formed_block(),
        forall|k: int| 0 <= k < linked.len() ==> (#[trigger] linked[k]).well_formed_block(),
    ensures
        spec_parse_worktrees(main.porcelain() + spec_porcelain(linked)) == Ok::<_, Failure>(
            spec_assemble(main, linked),
        ),
{
    let nothing = Seq::<char>::empty();
    let tail = spec_porcelain(linked);
    assert(nothing + main.porcelain() == main.porcelain()) by {
        assert(nothing + main.porcelain() =~= main.porcelain());
    }
    lemma_worktree_round_trip(nothing, main, tail);
    lemma_blocks_round_trip(main.porcelain(), linked);
}

/// Worktrees at paths of their own are entered one after the other, as they are.
pub proof fn lemma_enter_all_distinct(list: Seq<WorktreeModel>, more: Seq<WorktreeModel>)
    requires
        well_formed(list + more),
        list.len() > 0,
    ensures
        spec_enter_all(list, more) == list + more,
    decreases more.len(),
{
    let all = list + more;
    if more.len() == 0 {
        assert(all =~= list);
    } else {
        let front = more.drop_last();
        let last = more.last();
        let before = list + front;
        assert(before =~= all.drop_last());
        assert(before[0] == all[0]);
        assert forall|k: int| 0 < k < before.len() implies !(#[trigger] before[k]).is_main by {
            assert(before[k] == all[k]);
        }
        assert forall|j: int, k: int| 0 <= j < k < before.len() implies !same_path(
            (#[trigger] before[j]).path,
            (#[trigger] before[k]).path,
        ) by {
            assert(before[j] == all[j] && before[k] == all[k]);
        }
        lemma_enter_all_distinct(list, front);
        lemma_index_of_path(before, last.path);
        let at = spec_index_of_path(before, last.path);
        if at >= 0 {
            assert(before[at] == all[at]);
            assert(all[all.len() - 1] == last);
            assert(!same_path(all[at].path, all[all.len() - 1].path));
        }
        assert(before.push(last) =~= all);
    }
}

/// A well-formed set of worktrees that is written block by block is read back as it
/// is: parsing is the inverse of writing.
#[verifier::rlimit(50)]
pub proof fn lemma_worktree_set_round_trip(list: Seq<WorktreeModel>)
    requires
        well_formed(list),
        forall|k: int|
            0 <= k < list.len() ==> spec_with_is_main(#[trigger] list[k], false).well_formed_block(),
    ensures
        spec_parse_worktrees(spec_porcelain(list)) == Ok::<_, Failure>(list),
{
    let main = spec_with_is_main(list[0], false);
    let linked = list.skip(1);
    let marked = linked.map_values(|worktree: WorktreeModel| spec_with_is_main(worktree, false));
    assert(main.well_formed_block());
    assert forall|k: int| 0 <= k < linked.len() implies (#[trigger] linked[k]).well_formed_block() by {
        assert(linked[k] == list[k + 1]);
        assert(spec_with_is_main(list[k + 1], false) == list[k + 1]);
    }
    assert(spec_porcelain(list) == main.porcelain() + spec_porcelain(linked)) by {
        assert(main.porcelain() == list[0].porcelain());
    }
    assert(marked == linked) by {
        assert forall|k: int| 0 <= k < linked.len() implies marked[k] == linked[k] by {
            assert(linked[k] == list[k + 1]);
        }
        assert(marked =~= linked);
    }
    assert(spec_assemble(main, linked) == list) by {
        assert(spec_with_is_main(main, true) == list[0]);
        assert(seq![list[0]] + linked =~= list);
        lemma_enter_all_distinct(seq![list[0]], linked);
    }
    assert(spec_parse_worktrees(main.porcelain() + spec_porcelain(linked)) == Ok::<_, Failure>(
        spec_assemble(main, linked),
    )) by {
        lemma_worktrees_round_trip(main, linked);
    }
}

} // verus!
