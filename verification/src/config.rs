//! The settings of the user's configuration file.

use vstd::prelude::*;
use vstd::std_specs::cmp::PartialEqSpecImpl;
use vstd::string::*;
use crate::pattern::compiles;
use crate::pattern::regex_compiles;
use crate::pattern::regex_replaced;
use crate::pattern::replacen;
use crate::shell::shell_words_of;
use crate::shell::split;
use crate::shell::unindent;
use crate::shell::unindented;
use crate::text::clone_strings;
use crate::text::spec_trim_ascii;
use crate::text::trim_ascii;
use crate::text::views;

verus! {

/// The mathematical value of a [`BranchReplacement`].
pub struct ReplacementModel {
    pub find: Seq<char>,
    pub replace: Seq<char>,
    pub count: Option<usize>,
}

impl ReplacementModel {
    /// The limit handed to the regex: `0`, which stands for all matches, where no
    /// count is set.
    pub open spec fn limit(self) -> int {
        match self.count {
            Some(count) => count as int,
            None => 0,
        }
    }

    /// `text` after this replacement.
    pub open spec fn apply(self, text: Seq<char>) -> Seq<char> {
        regex_replaced(self.find, text, self.limit(), self.replace)
    }
}

/// `text` after the replacements of `rules`, one after the other.
pub open spec fn spec_apply_all(rules: Seq<ReplacementModel>, text: Seq<char>) -> Seq<char>
    decreases rules.len(),
{
    if rules.len() == 0 {
        text
    } else {
        rules.last().apply(spec_apply_all(rules.drop_last(), text))
    }
}

/// A find-and-replace rule for branch names. Its pattern is one that the regex
/// engine accepts.
#[derive(Debug, Eq)]
pub struct BranchReplacement {
    find: String,
    replace: String,
    count: Option<usize>,
}

impl View for BranchReplacement {
    type V = ReplacementModel;

    closed spec fn view(&self) -> ReplacementModel {
        ReplacementModel { find: self.find@, replace: self.replace@, count: self.count }
    }
}

impl Clone for BranchReplacement {
    fn clone(&self) -> (copy: Self)
        ensures
            copy@ == self@,
    {
        proof {
            use_type_invariant(self);
        }
        BranchReplacement {
            find: self.find.clone(),
            replace: self.replace.clone(),
            count: self.count,
        }
    }
}

impl PartialEq for BranchReplacement {
    fn eq(&self, other: &Self) -> (same: bool) {
        self.replace == other.replace && self.find == other.find
    }
}

impl PartialEqSpecImpl for BranchReplacement {
    open spec fn obeys_eq_spec() -> bool {
        true
    }

    open spec fn eq_spec(&self, other: &Self) -> bool {
        self@.replace == other@.replace && self@.find == other@.find
    }
}

impl BranchReplacement {
    #[verifier::type_invariant]
    spec fn pattern_compiles(self) -> bool {
        regex_compiles(self.find@)
    }

    /// The rule that replaces matches of the pattern `find` by `replace`: at most
    /// `count` of them, all of them without a count. `None` where the regex engine
    /// does not accept the pattern.
    pub fn new(find: &str, replace: &str, count: Option<usize>) -> (rule: Option<Self>)
        ensures
            match rule {
                Some(made) => regex_compiles(find@) && made@ == (ReplacementModel {
                    find: find@,
                    replace: replace@,
                    count,
                }),
                None => !regex_compiles(find@),
            },
    {
        if compiles(find) {
            Some(BranchReplacement { find: find.to_owned(), replace: replace.to_owned(), count })
        } else {
            None
        }
    }

    /// The pattern.
    pub fn find(&self) -> (pattern: &str)
        ensures
            pattern@ == self@.find,
    {
        self.find.as_str()
    }

    /// What a match is replaced by.
    pub fn replace(&self) -> (text: &str)
        ensures
            text@ == self@.replace,
    {
        self.replace.as_str()
    }

    /// How many matches are replaced at most; all of them without a count.
    pub fn count(&self) -> (count: Option<usize>)
        ensures
            count == self@.count,
    {
        self.count
    }

    /// `text` after this replacement.
    pub fn apply(&self, text: &str) -> (out: String)
        ensures
            out@ == self@.apply(text@),
    {
        proof {
            use_type_invariant(self);
        }
        let limit = match self.count {
            Some(count) => count,
            None => 0,
        };
        replacen(self.find.as_str(), text, limit, self.replace.as_str())
    }
}

/// The views of the rules of `rules`.
pub open spec fn replacement_views(rules: Seq<BranchReplacement>) -> Seq<ReplacementModel> {
    rules.map_values(|rule: BranchReplacement| rule@)
}

/// `text` after the replacements of `rules`, one after the other.
pub fn apply_all(rules: &Vec<BranchReplacement>, text: &str) -> (out: String)
    ensures
        out@ == spec_apply_all(replacement_views(rules@), text@),
{
    let mut out = text.to_owned();
    let mut k: usize = 0;
    assert(replacement_views(rules@).take(0) =~= Seq::<ReplacementModel>::empty());
    while k < rules.len()
        invariant
            k <= rules@.len(),
            out@ == spec_apply_all(replacement_views(rules@).take(k as int), text@),
        decreases rules@.len() - k,
    {
        proof {
            let done = replacement_views(rules@).take(k + 1);
            assert(done.drop_last() =~= replacement_views(rules@).take(k as int));
            assert(done.last() == rules@[k as int]@);
        }
        out = rules[k].apply(out.as_str());
        k = k + 1;
    }
    assert(replacement_views(rules@).take(k as int) =~= replacement_views(rules@));
    out
}

/// Settings of `clone`.
#[derive(Debug, Clone, Copy, PartialEq, Eq, Structural)]
pub struct CloneConfig {
    pub enable_gh: Option<bool>,
}

impl CloneConfig {
    /// The settings of `clone`.
    pub fn new(enable_gh: Option<bool>) -> (config: Self)
        ensures
            config.enable_gh == enable_gh,
    {
        CloneConfig { enable_gh }
    }

    /// Whether GitHub's `gh` may do the cloning. Off unless it is switched on.
    pub fn enable_gh(&self) -> (enabled: bool)
        ensures
            enabled == (self.enable_gh == Some(true)),
    {
        match self.enable_gh {
            Some(enabled) => enabled,
            None => false,
        }
    }
}

/// The mathematical value of a [`ShellArgs`].
pub struct ShellArgsModel {
    pub program: Seq<char>,
    pub args: Seq<Seq<char>>,
}

/// A program and its arguments.
#[derive(Debug, PartialEq, Eq)]
pub struct ShellArgs {
    pub program: String,
    pub args: Vec<String>,
}

impl View for ShellArgs {
    type V = ShellArgsModel;

    open spec fn view(&self) -> ShellArgsModel {
        ShellArgsModel { program: self.program@, args: views(self.args@) }
    }
}

impl Clone for ShellArgs {
    fn clone(&self) -> (copy: Self)
        ensures
            copy@ == self@,
    {
        ShellArgs { program: self.program.clone(), args: clone_strings(&self.args) }
    }
}

impl ShellArgs {
    /// What a quoted command line stands for: its first word is the program, the
    /// other words are the arguments. `None` where the line cannot be split into
    /// words, or holds none.
    pub open spec fn spec_parse(quoted: Seq<char>) -> Option<ShellArgsModel> {
        match shell_words_of(quoted) {
            Some(words) => if words.len() == 0 {
                None
            } else {
                Some(ShellArgsModel { program: words[0], args: words.skip(1) })
            },
            None => None,
        }
    }

    /// Splits a quoted command line into a program and its arguments.
    pub fn parse(quoted: &str) -> (parsed: Option<Self>)
        ensures
            match parsed {
                Some(command) => Self::spec_parse(quoted@) == Some(command@),
                None => Self::spec_parse(quoted@) is None,
            },
    {
        match split(quoted) {
            Some(words) => Self::from_words(words),
            None => None,
        }
    }

    /// The command of the given words: the first is the program. `None` without words.
    pub fn from_words(words: Vec<String>) -> (command: Option<Self>)
        ensures
            match command {
                Some(made) => words@.len() > 0 && made@ == (ShellArgsModel {
                    program: views(words@)[0],
                    args: views(words@).skip(1),
                }),
                None => words@.len() == 0,
            },
    {
        let mut args = words;
        if args.len() == 0 {
            return None;
        }
        let ghost all = views(args@);
        let program = args.remove(0);
        assert(views(args@) =~= all.skip(1));
        Some(ShellArgs { program, args })
    }
}

/// The mathematical value of a [`ShellCommand`].
pub enum ShellCommandModel {
    Simple(ShellArgsModel),
    Shell { sh: Seq<char> },
}

impl ShellCommandModel {
    /// The program and arguments to run. A script is handed to `sh -c` with its
    /// common indentation and the whitespace around it removed.
    pub open spec fn argv(self) -> Seq<Seq<char>> {
        match self {
            ShellCommandModel::Simple(command) => seq![command.program] + command.args,
            ShellCommandModel::Shell { sh } => seq!["sh"@, "-c"@, spec_trim_ascii(unindented(sh))],
        }
    }
}

/// A command to run after a worktree was added.
#[derive(Debug, PartialEq, Eq)]
pub enum ShellCommand {
    Simple(ShellArgs),
    Shell { sh: String },
}

impl View for ShellCommand {
    type V = ShellCommandModel;

    open spec fn view(&self) -> ShellCommandModel {
        match self {
            ShellCommand::Simple(command) => ShellCommandModel::Simple(command@),
            ShellCommand::Shell { sh } => ShellCommandModel::Shell { sh: sh@ },
        }
    }
}

impl Clone for ShellCommand {
    fn clone(&self) -> (copy: Self)
        ensures
            copy@ == self@,
    {
        match self {
            ShellCommand::Simple(command) => ShellCommand::Simple(command.clone()),
            ShellCommand::Shell { sh } => ShellCommand::Shell { sh: sh.clone() },
        }
    }
}

impl ShellCommand {
    /// The program to run, followed by its arguments.
    pub fn as_command(&self) -> (argv: Vec<String>)
        ensures
            views(argv@) == self@.argv(),
    {
        match self {
            ShellCommand::Simple(command) => {
                let mut argv: Vec<String> = Vec::new();
                argv.push(command.program.clone());
                let mut k: usize = 0;
                while k < command.args.len()
                    invariant
                        k <= command.args@.len(),
                        views(argv@) == seq![command.program@] + views(command.args@).take(k as int),
                    decreases command.args@.len() - k,
                {
                    let ghost before = views(argv@);
                    argv.push(command.args[k].clone());
                    assert(views(argv@) =~= before.push(command.args@[k as int]@));
                    assert(views(argv@) =~= seq![command.program@] + views(command.args@).take(
                        k + 1,
                    ));
                    k = k + 1;
                }
                assert(views(command.args@).take(k as int) =~= views(command.args@));
                argv
            },
            ShellCommand::Shell { sh } => {
                let script = unindent(sh.as_str());
                let mut argv: Vec<String> = Vec::new();
                argv.push(String::from_str("sh"));
                argv.push(String::from_str("-c"));
                argv.push(trim_ascii(script.as_str()).to_owned());
                assert(views(argv@) =~= self@.argv());
                argv
            },
        }
    }
}

/// The views of the commands of `commands`.
pub open spec fn command_views(commands: Seq<ShellCommand>) -> Seq<ShellCommandModel> {
    commands.map_values(|command: ShellCommand| command@)
}

/// Settings of `add`.
#[derive(Debug, PartialEq, Eq)]
pub struct AddConfig {
    /// The old name of `copy_ignored`; it wins where it is set.
    pub copy_untracked: Option<bool>,
    pub copy_ignored: Option<bool>,
    pub commands: Vec<ShellCommand>,
    pub branch_replacements: Vec<BranchReplacement>,
}

impl AddConfig {
    /// The settings without any choice made.
    pub fn new() -> (config: Self)
        ensures
            config.copy_untracked is None,
            config.copy_ignored is None,
            config.commands@.len() == 0,
            config.branch_replacements@.len() == 0,
    {
        AddConfig {
            copy_untracked: None,
            copy_ignored: None,
            commands: Vec::new(),
            branch_replacements: Vec::new(),
        }
    }

    /// Whether ignored files are copied into a new worktree. On unless it is
    /// switched off; `copy_untracked` decides where it is set.
    pub open spec fn spec_copy_ignored(&self) -> bool {
        match self.copy_untracked {
            Some(copy) => copy,
            None => self.copy_ignored != Some(false),
        }
    }

    /// Whether ignored files are copied into a new worktree.
    pub fn copy_ignored(&self) -> (copy: bool)
        ensures
            copy == self.spec_copy_ignored(),
    {
        if let Some(copy_untracked) = self.copy_untracked {
            return copy_untracked;
        }
        match self.copy_ignored {
            Some(copy) => copy,
            None => true,
        }
    }

    /// The commands to run in a new worktree.
    pub fn commands(&self) -> (commands: &Vec<ShellCommand>)
        ensures
            *commands == self.commands,
    {
        &self.commands
    }

    /// The rules that make a directory name of a branch name.
    pub fn branch_replacements(&self) -> (rules: &Vec<BranchReplacement>)
        ensures
            *rules == self.branch_replacements,
    {
        &self.branch_replacements
    }
}

/// The configuration file.
#[derive(Debug, PartialEq, Eq)]
pub struct ConfigFile {
    pub remote_names: Vec<String>,
    pub branch_names: Vec<String>,
    pub clone: CloneConfig,
    pub add: AddConfig,
}

impl ConfigFile {
    /// The remotes to prefer where none are set: `upstream`, then `origin`.
    pub open spec fn default_remote_names() -> Seq<Seq<char>> {
        seq!["upstream"@, "origin"@]
    }

    /// The default branches to look for where none are set: `main`, `master`, `trunk`.
    pub open spec fn default_branch_names() -> Seq<Seq<char>> {
        seq!["main"@, "master"@, "trunk"@]
    }

    /// The configuration of an empty file.
    pub fn new() -> (config: Self)
        ensures
            config.remote_names@.len() == 0,
            config.branch_names@.len() == 0,
            config.clone.enable_gh is None,
            config.add.copy_untracked is None,
            config.add.copy_ignored is None,
            config.add.commands@.len() == 0,
            config.add.branch_replacements@.len() == 0,
    {
        ConfigFile {
            remote_names: Vec::new(),
            branch_names: Vec::new(),
            clone: CloneConfig { enable_gh: None },
            add: AddConfig::new(),
        }
    }

    /// The remotes in the order of preference.
    pub fn remote_names(&self) -> (names: Vec<String>)
        ensures
            views(names@) == if self.remote_names@.len() == 0 {
                Self::default_remote_names()
            } else {
                views(self.remote_names@)
            },
    {
        if self.remote_names.len() == 0 {
            let mut names: Vec<String> = Vec::new();
            names.push(String::from_str("upstream"));
            names.push(String::from_str("origin"));
            assert(views(names@) =~= Self::default_remote_names());
            names
        } else {
            clone_strings(&self.remote_names)
        }
    }

    /// The names of default branches in the order of preference.
    pub fn branch_names(&self) -> (names: Vec<String>)
        ensures
            views(names@) == if self.branch_names@.len() == 0 {
                Self::default_branch_names()
            } else {
                views(self.branch_names@)
            },
    {
        if self.branch_names.len() == 0 {
            let mut names: Vec<String> = Vec::new();
            names.push(String::from_str("main"));
            names.push(String::from_str("master"));
            names.push(String::from_str("trunk"));
            assert(views(names@) =~= Self::default_branch_names());
            names
        } else {
            clone_strings(&self.branch_names)
        }
    }
}

} // verus!
