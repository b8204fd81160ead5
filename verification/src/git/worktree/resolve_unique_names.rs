//! Unique directory names for worktrees that move into one directory.

use vstd::prelude::*;
use vstd::seq_lib::seq_to_set_is_finite;
use vstd::set_lib::lemma_len_subset;
use vstd::string::*;
use crate::config::BranchReplacement;
use crate::config::replacement_views;
use crate::config::ReplacementModel;
use crate::git::worktree::dirname_for;
use crate::git::worktree::parse::well_formed;
use crate::git::worktree::parse::Worktree;
use crate::git::worktree::parse::worktree_views;
use crate::git::worktree::parse::WorktreeModel;
use crate::git::worktree::parse::Worktrees;
use crate::git::worktree::spec_dirname_for;
use crate::path::file_name;
use crate::path::path_file_name;
use crate::text::contains;
use crate::text::decimal;
use crate::text::lemma_decimal_injective;
use crate::text::replace_char;
use crate::text::spec_decimal;
use crate::text::spec_replace_char;
use crate::text::views;

verus! {

/// `base` with a dash and the number `number` behind it.
pub open spec fn spec_numbered(base: Seq<char>, number: nat) -> Seq<char> {
    base + "-"@ + spec_decimal(number)
}

/// The least number from `from` on whose numbered name is not reserved. The search
/// ends at `reserved.len() + 2`: that many names cannot all be reserved.
pub open spec fn spec_free_number(base: Seq<char>, reserved: Seq<Seq<char>>, from: nat) -> nat
    decreases reserved.len() + 2 - from,
{
    if from >= reserved.len() + 2 || !reserved.contains(spec_numbered(base, from)) {
        from
    } else {
        spec_free_number(base, reserved, from + 1)
    }
}

/// `base` with the least number from `2` on that makes a name that is not reserved.
pub open spec fn spec_free_numbered(base: Seq<char>, reserved: Seq<Seq<char>>) -> Seq<char> {
    spec_numbered(base, spec_free_number(base, reserved, 2))
}

/// The name of the directory of `path`, unless there is none or it is excluded.
pub open spec fn spec_usable_dirname(path: Seq<char>, excluded: Seq<Seq<char>>) -> Option<Seq<char>> {
    match path_file_name(path) {
        Some(name) => if excluded.contains(name) {
            None
        } else {
            Some(name)
        },
        None => None,
    }
}

/// The name for one worktree: the first of these that is not reserved.
///
/// - For a worktree on a branch, the directory name for the branch, which by default
///   is the last component of the branch name.
/// - For a worktree on a branch, the branch name with `/` replaced by `-`.
/// - The name of the worktree's directory, unless that is excluded.
/// - That name with `-2`, `-3` and so on behind it.
/// - For a worktree with a detached `HEAD` whose directory name cannot be used,
///   `work`, then `work-2`, `work-3` and so on.
///
/// `None` where the list runs out: the worktree is not detached, its directory name
/// cannot be used, and the names before that are reserved.
pub open spec fn spec_pick(
    worktree: WorktreeModel,
    reserved: Seq<Seq<char>>,
    excluded: Seq<Seq<char>>,
    rules: Seq<ReplacementModel>,
) -> Option<Seq<char>> {
    let dirname = spec_usable_dirname(worktree.path, excluded);
    if worktree.head.branch() is Some && !reserved.contains(
        spec_dirname_for(rules, worktree.head.branch()->0),
    ) {
        Some(spec_dirname_for(rules, worktree.head.branch()->0))
    } else if worktree.head.branch() is Some && !reserved.contains(
        spec_replace_char(worktree.head.branch()->0, '/', "-"@),
    ) {
        Some(spec_replace_char(worktree.head.branch()->0, '/', "-"@))
    } else if dirname is Some {
        if !reserved.contains(dirname->0) {
            dirname
        } else {
            Some(spec_free_numbered(dirname->0, reserved))
        }
    } else if worktree.head is Detached {
        if !reserved.contains("work"@) {
            Some("work"@)
        } else {
            Some(spec_free_numbered("work"@, reserved))
        }
    } else {
        None
    }
}

/// The names of the first `upto` worktrees of `list`, chosen one after the other.
///
/// `.git` is reserved from the start, beside `names`. A bare main worktree is named
/// `.git`. Every other worktree gets the name that [`spec_pick`] gives it, and that
/// name is reserved for the worktrees after it. `None` where a worktree gets no name.
pub open spec fn spec_resolved(
    list: Seq<WorktreeModel>,
    names: Seq<Seq<char>>,
    excluded: Seq<Seq<char>>,
    rules: Seq<ReplacementModel>,
    upto: int,
) -> Option<Seq<Seq<char>>>
    decreases upto,
{
    if upto <= 0 {
        Some(Seq::empty())
    } else {
        match spec_resolved(list, names, excluded, rules, upto - 1) {
            None => None,
            Some(chosen) => {
                if upto == 1 && list[0].head is Bare {
                    Some(chosen.push(".git"@))
                } else {
                    match spec_pick(list[upto - 1], names.push(".git"@) + chosen, excluded, rules) {
                        Some(name) => Some(chosen.push(name)),
                        None => None,
                    }
                }
            },
        }
    }
}

/// Whether a name can always be found for `worktree`: its `HEAD` is detached, or the
/// name of its directory can be used.
pub open spec fn spec_always_named(worktree: WorktreeModel, excluded: Seq<Seq<char>>) -> bool {
    worktree.head is Detached || spec_usable_dirname(worktree.path, excluded) is Some
}

proof fn lemma_numbered_injective(base: Seq<char>, a: nat, b: nat)
    requires
        spec_numbered(base, a) == spec_numbered(base, b),
    ensures
        a == b,
{
    let front = base + "-"@;
    assert((front + spec_decimal(a)).skip(front.len() as int) =~= spec_decimal(a));
    assert((front + spec_decimal(b)).skip(front.len() as int) =~= spec_decimal(b));
    lemma_decimal_injective(a, b);
}

proof fn lemma_free_number_range(base: Seq<char>, reserved: Seq<Seq<char>>, from: nat)
    requires
        from <= reserved.len() + 2,
    ensures
        from <= spec_free_number(base, reserved, from) <= reserved.len() + 2,
        forall|k: nat|
            from <= k < spec_free_number(base, reserved, from) ==> reserved.contains(
                #[trigger] spec_numbered(base, k),
            ),
        spec_free_number(base, reserved, from) < reserved.len() + 2 ==> !reserved.contains(
            spec_numbered(base, spec_free_number(base, reserved, from)),
        ),
    decreases reserved.len() + 2 - from,
{
    if from < reserved.len() + 2 && reserved.contains(spec_numbered(base, from)) {
        lemma_free_number_range(base, reserved, from + 1);
    }
}

/// The numbered name that the search ends on is not reserved: were it reserved, so
/// would be the names of all numbers before it, which are more names than are
/// reserved.
pub proof fn lemma_free_numbered_is_free(base: Seq<char>, reserved: Seq<Seq<char>>)
    ensures
        !reserved.contains(spec_free_numbered(base, reserved)),
{
    broadcast use seq_to_set_is_finite;

    lemma_free_number_range(base, reserved, 2);
    let found = spec_free_number(base, reserved, 2);
    if reserved.contains(spec_numbered(base, found)) {
        let count = reserved.len() + 1;
        let tried = Seq::new(count as nat, |i: int| spec_numbered(base, (i + 2) as nat));
        assert forall|i: int, j: int| 0 <= i < j < tried.len() implies tried[i] != tried[j] by {
            if tried[i] == tried[j] {
                lemma_numbered_injective(base, (i + 2) as nat, (j + 2) as nat);
            }
        }
        tried.unique_seq_to_set();
        reserved.lemma_cardinality_of_set();
        assert(tried.to_set().subset_of(reserved.to_set())) by {
            assert forall|name: Seq<char>| tried.to_set().contains(name) implies reserved.to_set().contains(
                name,
            ) by {
                let i = choose|i: int| 0 <= i < tried.len() && tried[i] == name;
                assert(reserved.contains(spec_numbered(base, (i + 2) as nat)));
            }
        }
        lemma_len_subset(tried.to_set(), reserved.to_set());
    }
}

/// A name that is picked is not reserved.
pub proof fn lemma_pick_is_free(
    worktree: WorktreeModel,
    reserved: Seq<Seq<char>>,
    excluded: Seq<Seq<char>>,
    rules: Seq<ReplacementModel>,
)
    ensures
        spec_pick(worktree, reserved, excluded, rules) matches Some(name) ==> !reserved.contains(name),
        spec_always_named(worktree, excluded) ==> spec_pick(worktree, reserved, excluded, rules) is Some,
{
    let dirname = spec_usable_dirname(worktree.path, excluded);
    if dirname is Some {
        lemma_free_numbered_is_free(dirname->0, reserved);
    }
    lemma_free_numbered_is_free("work"@, reserved);
}

/// The names that are chosen differ from one another, and none of them is one of
/// `names`, the names that were reserved beforehand, as long as `.git` is not among
/// those.
pub proof fn lemma_resolved_names_are_unique(
    list: Seq<WorktreeModel>,
    names: Seq<Seq<char>>,
    excluded: Seq<Seq<char>>,
    rules: Seq<ReplacementModel>,
    upto: int,
)
    requires
        !names.contains(".git"@),
        0 <= upto,
    ensures
        spec_resolved(list, names, excluded, rules, upto) matches Some(chosen) ==> {
            &&& chosen.len() == upto
            &&& forall|j: int, k: int| 0 <= j < k < chosen.len() ==> chosen[j] != chosen[k]
            &&& forall|k: int| 0 <= k < chosen.len() ==> !names.contains(#[trigger] chosen[k])
            &&& forall|k: int| 1 <= k < chosen.len() ==> #[trigger] chosen[k] != ".git"@
        },
    decreases upto,
{
    if upto > 0 {
        lemma_resolved_names_are_unique(list, names, excluded, rules, upto - 1);
        if let Some(chosen) = spec_resolved(list, names, excluded, rules, upto) {
            let before = spec_resolved(list, names, excluded, rules, upto - 1)->0;
            let reserved = names.push(".git"@) + before;
            let name = chosen.last();
            assert(chosen.drop_last() =~= before);
            assert forall|k: int| 0 <= k < before.len() implies chosen[k] == before[k] by {}
            if !(upto == 1 && list[0].head is Bare) {
                lemma_pick_is_free(list[upto - 1], reserved, excluded, rules);
                assert(!reserved.contains(name));
                assert forall|k: int| 0 <= k < before.len() implies before[k] != name by {
                    assert(reserved[names.len() + 1 + k] == before[k]);
                }
                assert(!names.contains(name)) by {
                    if names.contains(name) {
                        let i = choose|i: int| 0 <= i < names.len() && names[i] == name;
                        assert(reserved[i] == name);
                    }
                }
                assert(name != ".git"@) by {
                    assert(reserved[names.len() as int] == ".git"@);
                }
            }
        }
    }
}

/// Every worktree gets a name where each of them, the bare main worktree apart, has
/// a detached `HEAD` or a directory name that can be used.
pub proof fn lemma_resolved_is_total(
    list: Seq<WorktreeModel>,
    names: Seq<Seq<char>>,
    excluded: Seq<Seq<char>>,
    rules: Seq<ReplacementModel>,
    upto: int,
)
    requires
        0 <= upto <= list.len(),
        forall|k: int|
            0 <= k < upto ==> spec_always_named(#[trigger] list[k], excluded) || (k == 0
                && list[0].head is Bare),
    ensures
        spec_resolved(list, names, excluded, rules, upto) is Some,
    decreases upto,
{
    if upto > 0 {
        lemma_resolved_is_total(list, names, excluded, rules, upto - 1);
        let before = spec_resolved(list, names, excluded, rules, upto - 1)->0;
        assert(spec_always_named(list[upto - 1], excluded) || (upto == 1 && list[0].head is Bare));
        lemma_pick_is_free(list[upto - 1], names.push(".git"@) + before, excluded, rules);
    }
}

/// The position of the first of the first `upto` worktrees that gets no name, or
/// `upto` where each of them gets one.
pub open spec fn spec_unnamed_index(
    list: Seq<WorktreeModel>,
    names: Seq<Seq<char>>,
    excluded: Seq<Seq<char>>,
    rules: Seq<ReplacementModel>,
    upto: int,
) -> int
    decreases upto,
{
    if upto <= 0 {
        0
    } else if spec_resolved(list, names, excluded, rules, upto - 1) is None {
        spec_unnamed_index(list, names, excluded, rules, upto - 1)
    } else if spec_resolved(list, names, excluded, rules, upto) is None {
        upto - 1
    } else {
        upto
    }
}

/// The first worktree without a name is the one at which the naming stops.
pub proof fn lemma_unnamed_index(
    list: Seq<WorktreeModel>,
    names: Seq<Seq<char>>,
    excluded: Seq<Seq<char>>,
    rules: Seq<ReplacementModel>,
    at: int,
    upto: int,
)
    requires
        0 <= at < upto,
        spec_resolved(list, names, excluded, rules, at) is Some,
        spec_resolved(list, names, excluded, rules, at + 1) is None,
    ensures
        spec_unnamed_index(list, names, excluded, rules, upto) == at,
    decreases upto,
{
    if upto - 1 > at {
        lemma_resolved_stays_none(list, names, excluded, rules, at + 1, upto - 1);
        lemma_unnamed_index(list, names, excluded, rules, at, upto - 1);
    }
}

/// Where a worktree gets no name, so do all the worktrees after it.
pub proof fn lemma_resolved_stays_none(
    list: Seq<WorktreeModel>,
    names: Seq<Seq<char>>,
    excluded: Seq<Seq<char>>,
    rules: Seq<ReplacementModel>,
    j: int,
    k: int,
)
    requires
        0 <= j <= k,
        spec_resolved(list, names, excluded, rules, j) is None,
    ensures
        spec_resolved(list, names, excluded, rules, k) is None,
    decreases k - j,
{
    if j < k {
        lemma_resolved_stays_none(list, names, excluded, rules, j, k - 1);
    }
}

/// What to name: the worktrees, the names that are taken, and the directory names
/// that no worktree may keep.
#[derive(Debug)]
pub struct ResolveUniqueNameOpts {
    /// The worktrees to resolve into unique names.
    pub worktrees: Worktrees,
    /// The names that the resolved names must not be.
    pub names: Vec<String>,
    /// Directory names that are not used as they are. This keeps a worktree with a
    /// detached `HEAD` from a path like `my-repo/my-repo`.
    pub directory_names: Vec<String>,
}

/// A worktree with a new name.
#[derive(Debug, PartialEq, Eq)]
pub struct RenamedWorktree {
    /// The name of the worktree: the last component of the path that it moves to.
    pub name: String,
    /// The worktree itself.
    pub worktree: Worktree,
}

impl Clone for RenamedWorktree {
    fn clone(&self) -> (copy: Self)
        ensures
            copy.name@ == self.name@,
            copy.worktree@ == self.worktree@,
    {
        RenamedWorktree { name: self.name.clone(), worktree: self.worktree.clone() }
    }
}

/// The names of `renamed`, in order.
pub open spec fn renamed_names(renamed: Seq<RenamedWorktree>) -> Seq<Seq<char>> {
    renamed.map_values(|item: RenamedWorktree| item.name@)
}

/// The worktrees of `renamed`, in order.
pub open spec fn renamed_worktrees(renamed: Seq<RenamedWorktree>) -> Seq<WorktreeModel> {
    renamed.map_values(|item: RenamedWorktree| item.worktree@)
}

/// A worktree for which every name was taken.
#[derive(Debug, PartialEq, Eq)]
pub struct NoNameError {
    /// The path of the worktree.
    pub path: String,
}

impl NoNameError {
    /// The message of the error.
    pub fn to_string(&self) -> (text: String)
        ensures
            text@ == "No unique name is left for the worktree at "@ + self.path@,
    {
        String::from_str("No unique name is left for the worktree at ").concat(self.path.as_str())
    }
}

fn numbered(base: &str, number: u128) -> (name: String)
    ensures
        name@ == spec_numbered(base@, number as nat),
{
    let mut name = String::from_str(base);
    name.append("-");
    name.append(decimal(number).as_str());
    name
}

fn free_numbered(base: &str, reserved: &Vec<String>) -> (name: String)
    ensures
        name@ == spec_free_numbered(base@, views(reserved@)),
{
    let bound: u128 = reserved.len() as u128 + 2;
    let mut number: u128 = 2;
    let mut name = numbered(base, number);
    while number < bound && contains(reserved, name.as_str())
        invariant
            bound == reserved@.len() + 2,
            2 <= number <= bound,
            name@ == spec_numbered(base@, number as nat),
            spec_free_number(base@, views(reserved@), 2) == spec_free_number(
                base@,
                views(reserved@),
                number as nat,
            ),
        decreases bound - number,
    {
        number = number + 1;
        name = numbered(base, number);
    }
    name
}

fn usable_dirname(path: &str, excluded: &Vec<String>) -> (name: Option<String>)
    ensures
        match name {
            Some(text) => spec_usable_dirname(path@, views(excluded@)) == Some(text@),
            None => spec_usable_dirname(path@, views(excluded@)) is None,
        },
{
    match file_name(path) {
        Some(name) => if contains(excluded, name.as_str()) {
            None
        } else {
            Some(name)
        },
        None => None,
    }
}

fn pick(
    worktree: &Worktree,
    reserved: &Vec<String>,
    excluded: &Vec<String>,
    rules: &Vec<BranchReplacement>,
) -> (name: Option<String>)
    ensures
        match name {
            Some(text) => spec_pick(
                worktree@,
                views(reserved@),
                views(excluded@),
                replacement_views(rules@),
            ) == Some(text@),
            None => spec_pick(
                worktree@,
                views(reserved@),
                views(excluded@),
                replacement_views(rules@),
            ) is None,
        },
{
    if let Some(branch) = worktree.head.branch() {
        let last = dirname_for(rules, branch.branch_name());
        if !contains(reserved, last.as_str()) {
            return Some(last);
        }
        let full = replace_char(branch.branch_name(), '/', "-");
        if !contains(reserved, full.as_str()) {
            return Some(full);
        }
    }
    match usable_dirname(worktree.path.as_str(), excluded) {
        Some(name) => {
            if !contains(reserved, name.as_str()) {
                Some(name)
            } else {
                Some(free_numbered(name.as_str(), reserved))
            }
        },
        None => {
            if worktree.head.is_detached() {
                if !contains(reserved, "work") {
                    Some(String::from_str("work"))
                } else {
                    Some(free_numbered("work", reserved))
                }
            } else {
                None
            }
        },
    }
}

/// Whether the names of `chosen` differ from one another and from the names of
/// `names`.
pub open spec fn spec_unique_names(chosen: Seq<Seq<char>>, names: Seq<Seq<char>>) -> bool {
    &&& forall|j: int, k: int| 0 <= j < k < chosen.len() ==> chosen[j] != chosen[k]
    &&& forall|k: int| 0 <= k < chosen.len() ==> !names.contains(#[trigger] chosen[k])
}

/// Gives every worktree a directory name of its own.
///
/// When a repository turns into a worktree checkout, all its worktrees move into one
/// directory, so their names must differ, and they should follow the branches as far
/// as possible. The worktrees are named in their order, the main worktree first; see
/// [`spec_resolved`] for the names that are tried. `rules` are the configured rules
/// that make a directory name of a branch name.
///
/// Fails with the first worktree for which every name is taken. That does not
/// happen where every worktree has a detached `HEAD` or a directory name that is not
/// excluded.
///
/// The names differ from one another and from the names that were reserved, as
/// long as `.git` was not reserved.
pub fn resolve_unique_worktree_names(
    rules: &Vec<BranchReplacement>,
    opts: ResolveUniqueNameOpts,
) -> (resolved: Result<Vec<RenamedWorktree>, NoNameError>)
    ensures
        well_formed(opts.worktrees@),
        match resolved {
            Ok(renamed) => {
                &&& renamed_worktrees(renamed@) == opts.worktrees@
                &&& spec_resolved(
                    opts.worktrees@,
                    views(opts.names@),
                    views(opts.directory_names@),
                    replacement_views(rules@),
                    opts.worktrees@.len() as int,
                ) == Some(renamed_names(renamed@))
                &&& !views(opts.names@).contains(".git"@) ==> spec_unique_names(
                    renamed_names(renamed@),
                    views(opts.names@),
                )
            },
            Err(error) => spec_resolved(
                opts.worktrees@,
                views(opts.names@),
                views(opts.directory_names@),
                replacement_views(rules@),
                opts.worktrees@.len() as int,
            ) is None && 0 <= spec_unnamed_index(
                opts.worktrees@,
                views(opts.names@),
                views(opts.directory_names@),
                replacement_views(rules@),
                opts.worktrees@.len() as int,
            ) < opts.worktrees@.len() && error.path@ == opts.worktrees@[spec_unnamed_index(
                opts.worktrees@,
                views(opts.names@),
                views(opts.directory_names@),
                replacement_views(rules@),
                opts.worktrees@.len() as int,
            )].path,
        },
{
    let ghost list = opts.worktrees@;
    let ghost names = views(opts.names@);
    let ghost excluded = views(opts.directory_names@);
    let ghost model_rules = replacement_views(rules@);
    let worktrees = opts.worktrees.into_inner();
    let mut reserved = opts.names;
    reserved.push(String::from_str(".git"));
    assert(views(reserved@) =~= names.push(".git"@));
    let mut renamed: Vec<RenamedWorktree> = Vec::new();
    let mut k: usize = 0;
    while k < worktrees.len()
        invariant
            k <= worktrees@.len(),
            worktree_views(worktrees@) == list,
            list == opts.worktrees@,
            well_formed(list),
            names == views(opts.names@),
            excluded == views(opts.directory_names@),
            model_rules == replacement_views(rules@),
            renamed@.len() == k,
            renamed_worktrees(renamed@) == list.take(k as int),
            spec_resolved(list, names, excluded, model_rules, k as int) == Some(renamed_names(renamed@)),
            views(reserved@) == names.push(".git"@) + renamed_names(renamed@),
        decreases worktrees@.len() - k,
    {
        let worktree = worktrees[k].clone();
        assert(worktree@ == list[k as int]);
        let name = if k == 0 && worktree.head.is_bare() {
            String::from_str(".git")
        } else {
            match pick(&worktree, &reserved, &opts.directory_names, rules) {
                Some(name) => name,
                None => {
                    assert(spec_resolved(list, names, excluded, model_rules, k + 1) is None);
                    assert(worktree.path@ == list[k as int].path);
                    proof {
                        lemma_resolved_stays_none(
                            list,
                            names,
                            excluded,
                            model_rules,
                            k + 1,
                            list.len() as int,
                        );
                        lemma_unnamed_index(
                            list,
                            names,
                            excluded,
                            model_rules,
                            k as int,
                            list.len() as int,
                        );
                    }
                    return Err(NoNameError { path: worktree.path });
                },
            }
        };
        proof {
            assert(spec_resolved(list, names, excluded, model_rules, k + 1) == Some(
                renamed_names(renamed@).push(name@),
            ));
        }
        let ghost before_names = renamed_names(renamed@);
        let ghost before_worktrees = renamed_worktrees(renamed@);
        let ghost before_reserved = views(reserved@);
        reserved.push(name.clone());
        renamed.push(RenamedWorktree { name, worktree });
        proof {
            assert(renamed_names(renamed@) =~= before_names.push(name@));
            assert(renamed_worktrees(renamed@) =~= before_worktrees.push(list[k as int]));
            assert(renamed_worktrees(renamed@) =~= list.take(k + 1));
            assert(views(reserved@) =~= before_reserved.push(name@));
            assert(views(reserved@) =~= names.push(".git"@) + renamed_names(renamed@));
        }
        k = k + 1;
    }
    proof {
        assert(list.take(k as int) =~= list);
        if !names.contains(".git"@) {
            lemma_resolved_names_are_unique(list, names, excluded, model_rules, list.len() as int);
        }
    }
    Ok(renamed)
}

} // verus!
