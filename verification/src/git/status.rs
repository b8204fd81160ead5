//! The listing of `git status --porcelain=v1 --ignored=traditional -z`.

use vstd::prelude::*;
use vstd::string::*;
use crate::git::CommandModel;
use crate::git::Git;
use crate::git::GitCommand;
use crate::parse::ContextModel;
use crate::parse::desc;
use crate::parse::null::lemma_till_null;
use crate::parse::null::lemma_till_null_reads_field;
use crate::parse::null::till_null_at;
use crate::parse::ParseError;
use crate::parse::spec_till_null;
use crate::text::list4;
use crate::text::to_chars;

verus! {

/// Git methods for dealing with statuses and the working tree.
#[derive(Debug)]
pub struct GitStatus<'a> {
    git: &'a Git,
}

impl<'a> GitStatus<'a> {
    /// The `git` that the commands are made of.
    pub closed spec fn command(&self) -> CommandModel {
        self.git@
    }

    /// The status methods of `git`.
    pub fn new(git: &'a Git) -> (status: Self)
        ensures
            status.command() == git@,
    {
        GitStatus { git }
    }

    /// The command whose output [`Status::parser`] reads.
    pub fn get(&self) -> (command: GitCommand)
        ensures
            command@ == self.command().with_args(
                seq!["status"@, "--porcelain=v1"@, "--ignored=traditional"@, "-z"@],
            ),
    {
        self.git.command_with(&list4("status", "--porcelain=v1", "--ignored=traditional", "-z"))
    }
}

/// The status code of a file. Each [`StatusEntry`] has two of these.
#[derive(Debug, Clone, Copy, PartialEq, Eq, Structural)]
pub enum StatusCode {
    /// ` `
    Unmodified,
    /// `M`
    Modified,
    /// `T`
    TypeChanged,
    /// `A`
    Added,
    /// `D`
    Deleted,
    /// `R`
    Renamed,
    /// `C`
    Copied,
    /// `U`
    Unmerged,
    /// `?`
    Untracked,
    /// `!`
    Ignored,
}

impl StatusCode {
    /// The code that a character stands for, if it stands for one.
    pub open spec fn spec_of_char(c: char) -> Option<StatusCode> {
        if c == ' ' {
            Some(StatusCode::Unmodified)
        } else if c == 'M' {
            Some(StatusCode::Modified)
        } else if c == 'T' {
            Some(StatusCode::TypeChanged)
        } else if c == 'A' {
            Some(StatusCode::Added)
        } else if c == 'D' {
            Some(StatusCode::Deleted)
        } else if c == 'R' {
            Some(StatusCode::Renamed)
        } else if c == 'C' {
            Some(StatusCode::Copied)
        } else if c == 'U' {
            Some(StatusCode::Unmerged)
        } else if c == '?' {
            Some(StatusCode::Untracked)
        } else if c == '!' {
            Some(StatusCode::Ignored)
        } else {
            None
        }
    }

    /// The character that stands for a code.
    pub open spec fn spec_to_char(self) -> char {
        match self {
            StatusCode::Unmodified => ' ',
            StatusCode::Modified => 'M',
            StatusCode::TypeChanged => 'T',
            StatusCode::Added => 'A',
            StatusCode::Deleted => 'D',
            StatusCode::Renamed => 'R',
            StatusCode::Copied => 'C',
            StatusCode::Unmerged => 'U',
            StatusCode::Untracked => '?',
            StatusCode::Ignored => '!',
        }
    }

    /// Whether the code says that the file was changed: it is neither ignored,
    /// untracked nor unmodified.
    pub open spec fn spec_is_change(self) -> bool {
        !(self is Ignored || self is Untracked || self is Unmodified)
    }

    /// Reads one status code character.
    pub fn parser(c: char) -> (code: Option<StatusCode>)
        ensures
            code == Self::spec_of_char(c),
    {
        if c == ' ' {
            Some(StatusCode::Unmodified)
        } else if c == 'M' {
            Some(StatusCode::Modified)
        } else if c == 'T' {
            Some(StatusCode::TypeChanged)
        } else if c == 'A' {
            Some(StatusCode::Added)
        } else if c == 'D' {
            Some(StatusCode::Deleted)
        } else if c == 'R' {
            Some(StatusCode::Renamed)
        } else if c == 'C' {
            Some(StatusCode::Copied)
        } else if c == 'U' {
            Some(StatusCode::Unmerged)
        } else if c == '?' {
            Some(StatusCode::Untracked)
        } else if c == '!' {
            Some(StatusCode::Ignored)
        } else {
            None
        }
    }

    /// The character that stands for this code.
    pub fn to_char(&self) -> (c: char)
        ensures
            c == self.spec_to_char(),
            Self::spec_of_char(c) == Some(*self),
    {
        match self {
            StatusCode::Unmodified => ' ',
            StatusCode::Modified => 'M',
            StatusCode::TypeChanged => 'T',
            StatusCode::Added => 'A',
            StatusCode::Deleted => 'D',
            StatusCode::Renamed => 'R',
            StatusCode::Copied => 'C',
            StatusCode::Unmerged => 'U',
            StatusCode::Untracked => '?',
            StatusCode::Ignored => '!',
        }
    }

    /// The code as a one-character string.
    pub fn to_string(&self) -> (text: String)
        ensures
            text@ == seq![self.spec_to_char()],
    {
        let text = match self {
            StatusCode::Unmodified => " ",
            StatusCode::Modified => "M",
            StatusCode::TypeChanged => "T",
            StatusCode::Added => "A",
            StatusCode::Deleted => "D",
            StatusCode::Renamed => "R",
            StatusCode::Copied => "C",
            StatusCode::Unmerged => "U",
            StatusCode::Untracked => "?",
            StatusCode::Ignored => "!",
        };
        proof {
            reveal_strlit(" ");
            reveal_strlit("M");
            reveal_strlit("T");
            reveal_strlit("A");
            reveal_strlit("D");
            reveal_strlit("R");
            reveal_strlit("C");
            reveal_strlit("U");
            reveal_strlit("?");
            reveal_strlit("!");
            assert(text@ =~= seq![self.spec_to_char()]);
        }
        text.to_owned()
    }

    fn is_change(&self) -> (change: bool)
        ensures
            change == self.spec_is_change(),
    {
        match self {
            StatusCode::Ignored | StatusCode::Untracked | StatusCode::Unmodified => false,
            _ => true,
        }
    }
}

/// The mathematical value of a [`StatusEntry`].
pub struct StatusEntryModel {
    pub left: StatusCode,
    pub right: StatusCode,
    pub path: Seq<char>,
    pub renamed_from: Option<Seq<char>>,
}

impl StatusEntryModel {
    /// Whether either code says that the file was renamed.
    pub open spec fn is_renamed(self) -> bool {
        self.left is Renamed || self.right is Renamed
    }

    /// Whether either code says that the file was changed.
    pub open spec fn is_modified(self) -> bool {
        self.left.spec_is_change() || self.right.spec_is_change()
    }

    /// Whether either code says that the file is ignored.
    pub open spec fn is_ignored(self) -> bool {
        self.left is Ignored || self.right is Ignored
    }

    /// What a parser can produce: the old path is there exactly for a rename, and no
    /// path is empty or holds a NUL.
    pub open spec fn well_formed(self) -> bool {
        &&& self.renamed_from is Some <==> self.is_renamed()
        &&& is_field(self.path)
        &&& self.renamed_from matches Some(from) ==> is_field(from)
    }

    /// The text of the entry in the listing.
    pub open spec fn porcelain(self) -> Seq<char> {
        let head = seq![self.left.spec_to_char(), self.right.spec_to_char(), ' '] + self.path
            + seq!['\0'];
        match self.renamed_from {
            Some(from) => head + from + seq!['\0'],
            None => head,
        }
    }
}

/// Whether `text` can stand as a NUL-terminated field: it is not empty and holds no NUL.
pub open spec fn is_field(text: Seq<char>) -> bool {
    &&& text.len() > 0
    &&& forall|k: int| 0 <= k < text.len() ==> text[k] != '\0'
}

/// The entry that starts at `pos`: two status codes, a space, a NUL-terminated path
/// and, if either code is a rename, a second NUL-terminated path, the old one.
///
/// `Ok` holds the entry and the position after it; `Err` the position where the
/// grammar broke.
pub open spec fn spec_status_entry_at(s: Seq<char>, pos: int) -> Result<(StatusEntryModel, int), int> {
    if pos < 0 || pos >= s.len() {
        Err(pos)
    } else if StatusCode::spec_of_char(s[pos]) is None {
        Err(pos)
    } else if pos + 1 >= s.len() || StatusCode::spec_of_char(s[pos + 1]) is None {
        Err(pos + 1)
    } else if pos + 2 >= s.len() || s[pos + 2] != ' ' {
        Err(pos + 2)
    } else {
        let left = StatusCode::spec_of_char(s[pos])->0;
        let right = StatusCode::spec_of_char(s[pos + 1])->0;
        match spec_till_null(s, pos + 3) {
            Err(offset) => Err(offset),
            Ok((path, next)) => {
                if left is Renamed || right is Renamed {
                    match spec_till_null(s, next) {
                        Err(offset) => Err(offset),
                        Ok((from, after)) => Ok(
                            (StatusEntryModel { left, right, path, renamed_from: Some(from) }, after),
                        ),
                    }
                } else {
                    Ok((StatusEntryModel { left, right, path, renamed_from: None }, next))
                }
            },
        }
    }
}

/// `entry` put before the entries of `rest`, where there are any.
pub open spec fn spec_cons_entry(
    entry: StatusEntryModel,
    rest: Result<Seq<StatusEntryModel>, int>,
) -> Result<Seq<StatusEntryModel>, int> {
    match rest {
        Ok(entries) => Ok(seq![entry] + entries),
        Err(offset) => Err(offset),
    }
}

/// The entries from `pos` to the end of the input.
pub open spec fn spec_status_entries(s: Seq<char>, pos: int) -> Result<Seq<StatusEntryModel>, int>
    decreases s.len() - pos,
{
    if pos < 0 || pos >= s.len() {
        Ok(Seq::empty())
    } else {
        match spec_status_entry_at(s, pos) {
            Err(offset) => Err(offset),
            Ok((entry, next)) => {
                if next <= pos {
                    Err(pos)
                } else {
                    spec_cons_entry(entry, spec_status_entries(s, next))
                }
            },
        }
    }
}

/// What a status parser makes of `s`: its entries, or the position where `s` stops
/// being a listing. The empty input is the listing without entries.
pub open spec fn spec_parse_status(s: Seq<char>) -> Result<Seq<StatusEntryModel>, int> {
    spec_status_entries(s, 0)
}

/// The context of every status failure.
pub open spec fn status_context() -> ContextModel {
    ContextModel::Description("a git status listing"@)
}

/// The text of a listing: the texts of its entries, one after the other.
pub open spec fn spec_porcelain(entries: Seq<StatusEntryModel>) -> Seq<char>
    decreases entries.len(),
{
    if entries.len() == 0 {
        Seq::empty()
    } else {
        entries[0].porcelain() + spec_porcelain(entries.skip(1))
    }
}

/// The character of a status code stands for that code.
pub proof fn lemma_status_code_round_trip(code: StatusCode)
    ensures
        StatusCode::spec_of_char(code.spec_to_char()) == Some(code),
{
}

/// A well-formed entry that is written is read back, whatever stands around it.
pub proof fn lemma_status_entry_round_trip(
    before: Seq<char>,
    entry: StatusEntryModel,
    after: Seq<char>,
)
    requires
        entry.well_formed(),
    ensures
        spec_status_entry_at(before + entry.porcelain() + after, before.len() as int) == Ok::<_, int>(
            (entry, (before.len() + entry.porcelain().len()) as int),
        ),
        entry.porcelain().len() > 0,
{
    let s = before + entry.porcelain() + after;
    let pos = before.len() as int;
    let codes = seq![entry.left.spec_to_char(), entry.right.spec_to_char(), ' '];
    lemma_status_code_round_trip(entry.left);
    lemma_status_code_round_trip(entry.right);
    assert(s[pos] == entry.left.spec_to_char());
    assert(s[pos + 1] == entry.right.spec_to_char());
    assert(s[pos + 2] == ' ');
    match entry.renamed_from {
        Some(from) => {
            let tail = from + seq!['\0'] + after;
            assert(s =~= (before + codes) + entry.path + seq!['\0'] + tail);
            lemma_till_null_reads_field(before + codes, entry.path, tail);
            let front = before + codes + entry.path + seq!['\0'];
            assert(s =~= front + from + seq!['\0'] + after);
            lemma_till_null_reads_field(front, from, after);
        },
        None => {
            assert(s =~= (before + codes) + entry.path + seq!['\0'] + after);
            lemma_till_null_reads_field(before + codes, entry.path, after);
        },
    }
}

/// A listing of well-formed entries that is written is read back: parsing is the
/// inverse of writing.
pub proof fn lemma_status_round_trip(before: Seq<char>, entries: Seq<StatusEntryModel>)
    requires
        forall|k: int| 0 <= k < entries.len() ==> (#[trigger] entries[k]).well_formed(),
    ensures
        spec_status_entries(before + spec_porcelain(entries), before.len() as int) == Ok::<_, int>(
            entries,
        ),
        before.len() == 0 ==> spec_parse_status(spec_porcelain(entries)) == Ok::<_, int>(entries),
    decreases entries.len(),
{
    let s = before + spec_porcelain(entries);
    let pos = before.len() as int;
    if entries.len() == 0 {
        assert(s =~= before);
        assert(entries =~= Seq::<StatusEntryModel>::empty());
    } else {
        let first = entries[0];
        let rest = entries.skip(1);
        assert(first.well_formed());
        assert forall|k: int| 0 <= k < rest.len() implies (#[trigger] rest[k]).well_formed() by {
            assert(rest[k] == entries[k + 1]);
        }
        crate::text::lemma_concat_assoc(before, first.porcelain(), spec_porcelain(rest));
        lemma_status_entry_round_trip(before, first, spec_porcelain(rest));
        lemma_status_round_trip(before + first.porcelain(), rest);
        assert(seq![first] + rest =~= entries);
    }
    if before.len() == 0 {
        assert(before + spec_porcelain(entries) =~= spec_porcelain(entries));
    }
}

/// The listing without entries is the empty input, and the empty input is no error.
pub proof fn lemma_empty_status()
    ensures
        spec_parse_status(Seq::<char>::empty()) == Ok::<_, int>(Seq::<StatusEntryModel>::empty()),
{
}

/// An entry that parses is well formed and ends after where it starts.
pub proof fn lemma_status_entry_at(s: Seq<char>, pos: int)
    requires
        0 <= pos <= s.len(),
    ensures
        match spec_status_entry_at(s, pos) {
            Ok((entry, next)) => pos + 4 < next <= s.len() && entry.well_formed(),
            Err(offset) => pos <= offset <= s.len(),
        },
{
    if pos + 2 < s.len() {
        lemma_till_null(s, pos + 3);
        if let Ok((path, next)) = spec_till_null(s, pos + 3) {
            lemma_till_null(s, next);
        }
    }
}

/// Every entry of a listing that parses is well formed.
pub proof fn lemma_status_entries_well_formed(s: Seq<char>, pos: int)
    requires
        0 <= pos <= s.len(),
    ensures
        match spec_status_entries(s, pos) {
            Ok(entries) => forall|k: int| 0 <= k < entries.len() ==> (#[trigger] entries[k]).well_formed(),
            Err(offset) => pos <= offset <= s.len(),
        },
    decreases s.len() - pos,
{
    if pos < s.len() {
        lemma_status_entry_at(s, pos);
        if let Ok((entry, next)) = spec_status_entry_at(s, pos) {
            lemma_status_entries_well_formed(s, next);
        }
    }
}

/// The status of one file.
#[derive(Debug, PartialEq, Eq)]
pub struct StatusEntry {
    /// The status of the file in the index or, during a merge conflict, in the left head.
    pub left: StatusCode,
    /// The status of the file in the working tree or, during a merge conflict, in the
    /// right head.
    pub right: StatusCode,
    /// The path of the file.
    pub path: String,
    /// The path that the file was renamed from, if it was.
    pub renamed_from: Option<String>,
}

impl View for StatusEntry {
    type V = StatusEntryModel;

    open spec fn view(&self) -> StatusEntryModel {
        StatusEntryModel {
            left: self.left,
            right: self.right,
            path: self.path@,
            renamed_from: match self.renamed_from {
                Some(from) => Some(from@),
                None => None,
            },
        }
    }
}

impl Clone for StatusEntry {
    fn clone(&self) -> (copy: Self)
        ensures
            copy@ == self@,
    {
        StatusEntry {
            left: self.left,
            right: self.right,
            path: self.path.clone(),
            renamed_from: match &self.renamed_from {
                Some(from) => Some(from.clone()),
                None => None,
            },
        }
    }
}

impl std::str::FromStr for StatusEntry {
    type Err = ParseError;

    fn from_str(input: &str) -> (parsed: Result<Self, ParseError>)
        ensures
            match parsed {
                Ok(entry) => spec_status_entry_at(input@, 0) == Ok::<_, int>(
                    (entry@, input@.len() as int),
                ),
                Err(error) => error@.context == status_context() && match spec_status_entry_at(
                    input@,
                    0,
                ) {
                    Ok((entry, next)) => next < input@.len() && error@.offset == next,
                    Err(offset) => error@.offset == offset,
                },
            },
    {
        Self::parser(input)
    }
}

impl StatusEntry {
    /// The two codes: left, then right.
    pub fn codes(&self) -> (codes: Vec<StatusCode>)
        ensures
            codes@ == seq![self.left, self.right],
    {
        let mut codes = Vec::new();
        codes.push(self.left);
        codes.push(self.right);
        codes
    }

    /// Whether either code says that the file was renamed.
    pub fn is_renamed(&self) -> (renamed: bool)
        ensures
            renamed == self@.is_renamed(),
    {
        matches!(self.left, StatusCode::Renamed) || matches!(self.right, StatusCode::Renamed)
    }

    /// True if either code says that the file is not ignored, untracked, or unmodified.
    pub fn is_modified(&self) -> (modified: bool)
        ensures
            modified == self@.is_modified(),
    {
        self.left.is_change() || self.right.is_change()
    }

    /// Whether either code says that the file is ignored.
    pub fn is_ignored(&self) -> (ignored: bool)
        ensures
            ignored == self@.is_ignored(),
    {
        matches!(self.left, StatusCode::Ignored) || matches!(self.right, StatusCode::Ignored)
    }

    /// Parses a single entry that fills the whole input.
    pub fn parser(input: &str) -> (parsed: Result<Self, ParseError>)
        ensures
            match parsed {
                Ok(entry) => spec_status_entry_at(input@, 0) == Ok::<_, int>(
                    (entry@, input@.len() as int),
                ),
                Err(error) => error@.context == status_context() && match spec_status_entry_at(
                    input@,
                    0,
                ) {
                    Ok((entry, next)) => next < input@.len() && error@.offset == next,
                    Err(offset) => error@.offset == offset,
                },
            },
    {
        let chars = to_chars(input);
        proof {
            lemma_status_entry_at(input@, 0);
        }
        match Self::parse_at(input, &chars, 0) {
            Ok((entry, next)) => {
                if next == chars.len() {
                    Ok(entry)
                } else {
                    Err(ParseError::new(next, desc("a git status listing")))
                }
            },
            Err(offset) => Err(ParseError::new(offset, desc("a git status listing"))),
        }
    }

    /// Reads the entry that starts at `pos`.
    pub(crate) fn parse_at(input: &str, chars: &Vec<char>, pos: usize) -> (parsed: Result<
        (Self, usize),
        usize,
    >)
        requires
            chars@ == input@,
            pos <= chars@.len(),
        ensures
            match parsed {
                Ok((entry, next)) => spec_status_entry_at(input@, pos as int) == Ok::<_, int>(
                    (entry@, next as int),
                ),
                Err(offset) => spec_status_entry_at(input@, pos as int) == Err::<
                    (StatusEntryModel, int),
                    _,
                >(offset as int),
            },
    {
        let length = chars.len();
        if pos >= length {
            return Err(pos);
        }
        let left = match StatusCode::parser(chars[pos]) {
            Some(code) => code,
            None => {
                return Err(pos);
            },
        };
        if pos + 1 >= length {
            return Err(pos + 1);
        }
        let right = match StatusCode::parser(chars[pos + 1]) {
            Some(code) => code,
            None => {
                return Err(pos + 1);
            },
        };
        if pos + 2 >= length || chars[pos + 2] != ' ' {
            return Err(pos + 2);
        }
        proof {
            lemma_till_null(input@, pos + 3);
        }
        let (path, next) = match till_null_at(input, chars, pos + 3) {
            Ok(field) => field,
            Err(offset) => {
                return Err(offset);
            },
        };
        if matches!(left, StatusCode::Renamed) || matches!(right, StatusCode::Renamed) {
            match till_null_at(input, chars, next) {
                Ok((from, after)) => Ok(
                    (StatusEntry { left, right, path, renamed_from: Some(from) }, after),
                ),
                Err(offset) => Err(offset),
            }
        } else {
            Ok((StatusEntry { left, right, path, renamed_from: None }, next))
        }
    }

    /// The entry as `git status --short` shows it, a rename as `old -> new`.
    pub open spec fn spec_to_string(entry: StatusEntryModel) -> Seq<char> {
        let codes = seq![entry.left.spec_to_char(), entry.right.spec_to_char(), ' '];
        match entry.renamed_from {
            Some(from) => codes + from + " -> "@ + entry.path,
            None => codes + entry.path,
        }
    }

    /// The entry as `git status --short` shows it, a rename as `old -> new`.
    pub fn to_string(&self) -> (text: String)
        ensures
            text@ == Self::spec_to_string(self@),
    {
        let mut text = self.left.to_string();
        text.append(self.right.to_string().as_str());
        text.append(" ");
        proof {
            reveal_strlit(" ");
            assert(text@ =~= seq![self.left.spec_to_char(), self.right.spec_to_char(), ' ']);
        }
        match &self.renamed_from {
            Some(from) => {
                text.append(from.as_str());
                text.append(" -> ");
            },
            None => {},
        }
        text.append(self.path.as_str());
        text
    }
}

/// The views of the entries of `entries`.
pub open spec fn entry_views(entries: Seq<StatusEntry>) -> Seq<StatusEntryModel> {
    entries.map_values(|entry: StatusEntry| entry@)
}

/// A `git status` listing.
///
/// ```plain
///  M Cargo.lock
///  D src/git.rs
/// ?? src/config.rs
/// !! target/
/// ```
#[derive(Debug, PartialEq, Eq)]
pub struct Status {
    pub entries: Vec<StatusEntry>,
}

impl View for Status {
    type V = Seq<StatusEntryModel>;

    open spec fn view(&self) -> Seq<StatusEntryModel> {
        entry_views(self.entries@)
    }
}

impl std::str::FromStr for Status {
    type Err = ParseError;

    fn from_str(input: &str) -> (parsed: Result<Self, ParseError>)
        ensures
            match parsed {
                Ok(status) => spec_parse_status(input@) == Ok::<_, int>(status@),
                Err(error) => spec_parse_status(input@) == Err::<Seq<StatusEntryModel>, _>(
                    error@.offset,
                ) && error@.context == status_context(),
            },
    {
        Self::parser(input)
    }
}

impl Status {
    /// Whether no entry of the listing is modified.
    pub open spec fn spec_is_clean(entries: Seq<StatusEntryModel>) -> bool {
        forall|k: int| 0 <= k < entries.len() ==> !(#[trigger] entries[k]).is_modified()
    }

    /// Whether no entry of the listing is modified.
    pub fn is_clean(&self) -> (clean: bool)
        ensures
            clean == Self::spec_is_clean(self@),
    {
        let mut k: usize = 0;
        while k < self.entries.len()
            invariant
                k <= self.entries@.len(),
                forall|j: int| 0 <= j < k ==> !(#[trigger] self@[j]).is_modified(),
            decreases self.entries@.len() - k,
        {
            if self.entries[k].is_modified() {
                assert(self@[k as int].is_modified());
                return false;
            }
            k = k + 1;
        }
        true
    }

    /// The entries that are ignored, in the listing's order.
    pub fn ignored(&self) -> (kept: Vec<StatusEntry>)
        ensures
            entry_views(kept@) == self@.filter(|entry: StatusEntryModel| entry.is_ignored()),
    {
        let mut kept: Vec<StatusEntry> = Vec::new();
        let mut k: usize = 0;
        let ghost wanted = |entry: StatusEntryModel| entry.is_ignored();
        assert(self@.take(0) =~= Seq::<StatusEntryModel>::empty());
        while k < self.entries.len()
            invariant
                k <= self.entries@.len(),
                wanted == |entry: StatusEntryModel| entry.is_ignored(),
                entry_views(kept@) == self@.take(k as int).filter(wanted),
            decreases self.entries@.len() - k,
        {
            proof {
                assert(self@.take(k + 1).drop_last() =~= self@.take(k as int));
                assert(self@.take(k + 1).last() == self@[k as int]);
                reveal(Seq::filter);
            }
            if self.entries[k].is_ignored() {
                let ghost before = entry_views(kept@);
                kept.push(self.entries[k].clone());
                assert(entry_views(kept@) =~= before.push(self@[k as int]));
            }
            k = k + 1;
        }
        assert(self@.take(k as int) =~= self@);
        kept
    }

    /// Parses a whole listing. The empty input gives the listing without entries.
    pub fn parser(input: &str) -> (parsed: Result<Self, ParseError>)
        ensures
            match parsed {
                Ok(status) => spec_parse_status(input@) == Ok::<_, int>(status@),
                Err(error) => spec_parse_status(input@) == Err::<Seq<StatusEntryModel>, _>(
                    error@.offset,
                ) && error@.context == status_context(),
            },
    {
        let chars = to_chars(input);
        let mut entries: Vec<StatusEntry> = Vec::new();
        let mut pos: usize = 0;
        while pos < chars.len()
            invariant
                chars@ == input@,
                pos <= chars@.len(),
                spec_parse_status(input@) == match spec_status_entries(input@, pos as int) {
                    Ok(rest) => Ok::<_, int>(entry_views(entries@) + rest),
                    Err(offset) => Err(offset),
                },
            decreases chars@.len() - pos,
        {
            proof {
                lemma_status_entry_at(input@, pos as int);
            }
            match StatusEntry::parse_at(input, &chars, pos) {
                Ok((entry, next)) => {
                    proof {
                        let before = entry_views(entries@);
                        let after = before.push(entry@);
                        if let Ok(rest) = spec_status_entries(input@, next as int) {
                            assert(before + (seq![entry@] + rest) =~= after + rest);
                        }
                    }
                    let ghost before = entry_views(entries@);
                    entries.push(entry);
                    assert(entry_views(entries@) =~= before.push(entry@));
                    pos = next;
                },
                Err(offset) => {
                    return Err(ParseError::new(offset, desc("a git status listing")));
                },
            }
        }
        assert(entry_views(entries@) + Seq::<StatusEntryModel>::empty() =~= entry_views(entries@));
        Ok(Status { entries })
    }
}

} // verus!
