//! Commit hashes.

use vstd::prelude::*;
use vstd::string::*;
use crate::parse::ContextModel;
use crate::parse::desc;
use crate::parse::ParseError;
use crate::text::to_chars;

verus! {

/// Whether `c` is one of `0`-`9` or `a`-`f`.
pub open spec fn is_hex_digit(c: char) -> bool {
    ('0' <= c && c <= '9') || ('a' <= c && c <= 'f')
}

/// Whether `s` is exactly 40 lowercase hexadecimal digits.
pub open spec fn is_commit_hash(s: Seq<char>) -> bool {
    &&& s.len() == 40
    &&& forall|k: int| 0 <= k < 40 ==> is_hex_digit(#[trigger] s[k])
}

/// The first position at or after `from` that holds no lowercase hexadecimal digit.
pub open spec fn spec_hex_run(s: Seq<char>, from: int) -> int
    decreases s.len() - from,
{
    if from < 0 || from >= s.len() || !is_hex_digit(s[from]) {
        from
    } else {
        spec_hex_run(s, from + 1)
    }
}

/// What a commit hash parser makes of `s`: the hash, or the position of the first
/// character that cannot belong to one (position 40 for anything after the hash).
pub open spec fn spec_parse_commit_hash(s: Seq<char>) -> Result<Seq<char>, int> {
    let run = spec_hex_run(s, 0);
    if run < 40 {
        Err(run)
    } else if s.len() == 40 {
        Ok(s)
    } else {
        Err(40)
    }
}

/// The context of every commit hash failure.
pub open spec fn commit_hash_context() -> ContextModel {
    ContextModel::Description("a commit hash"@)
}

/// A stretch of digits does not end the run of digits that it lies in.
pub proof fn lemma_hex_run(s: Seq<char>, from: int, upto: int)
    requires
        0 <= from <= upto <= s.len(),
        forall|k: int| from <= k < upto ==> is_hex_digit(#[trigger] s[k]),
    ensures
        spec_hex_run(s, from) == spec_hex_run(s, upto),
        spec_hex_run(s, upto) >= upto,
    decreases upto - from,
{
    if from < upto {
        lemma_hex_run(s, from + 1, upto);
    } else {
        lemma_hex_run_bounds(s, upto);
    }
}

/// The run of digits from `from` on ends inside the text, holds digits only, and
/// ends before a character that is none.
pub proof fn lemma_hex_run_bounds(s: Seq<char>, from: int)
    requires
        0 <= from <= s.len(),
    ensures
        from <= spec_hex_run(s, from) <= s.len(),
        forall|k: int| from <= k < spec_hex_run(s, from) ==> is_hex_digit(#[trigger] s[k]),
        spec_hex_run(s, from) < s.len() ==> !is_hex_digit(s[spec_hex_run(s, from)]),
    decreases s.len() - from,
{
    if from < s.len() && is_hex_digit(s[from]) {
        lemma_hex_run_bounds(s, from + 1);
    }
}

/// The parser accepts exactly the commit hashes, and hands them back unchanged.
pub proof fn lemma_parse_commit_hash(s: Seq<char>)
    ensures
        spec_parse_commit_hash(s) is Ok <==> is_commit_hash(s),
        spec_parse_commit_hash(s) is Ok ==> spec_parse_commit_hash(s) == Ok::<_, int>(s),
        spec_parse_commit_hash(s) matches Err(offset) ==> 0 <= offset <= s.len() && offset <= 40,
{
    lemma_hex_run_bounds(s, 0);
    if is_commit_hash(s) {
        lemma_hex_run(s, 0, 40);
    }
}

/// A git commit hash.
#[derive(Debug, PartialEq, Eq, PartialOrd, Ord, Hash)]
pub struct CommitHash(String);

impl View for CommitHash {
    type V = Seq<char>;

    closed spec fn view(&self) -> Seq<char> {
        self.0@
    }
}

impl Clone for CommitHash {
    fn clone(&self) -> (copy: Self)
        ensures
            copy@ == self@,
    {
        CommitHash(self.0.clone())
    }
}

impl std::str::FromStr for CommitHash {
    type Err = ParseError;

    fn from_str(input: &str) -> (parsed: Result<Self, ParseError>)
        ensures
            match parsed {
                Ok(commit) => spec_parse_commit_hash(input@) == Ok::<_, int>(commit@),
                Err(error) => spec_parse_commit_hash(input@) == Err::<Seq<char>, _>(error@.offset)
                    && error@.context == commit_hash_context(),
            },
    {
        Self::parser(input)
    }
}

impl CommitHash {
    /// The first 8 characters of a hash, or all of it where it is shorter.
    pub open spec fn spec_abbrev(hash: Seq<char>) -> Seq<char> {
        if hash.len() >= 8 {
            hash.take(8)
        } else {
            hash
        }
    }

    /// The hash of 40 times `a`.
    pub open spec fn spec_fake() -> Seq<char> {
        Seq::new(40, |i: int| 'a')
    }

    /// The hash with the text `hash`, which is taken as it is.
    pub fn new(hash: String) -> (commit: Self)
        ensures
            commit@ == hash@,
    {
        CommitHash(hash)
    }

    /// A well-formed hash that names no commit.
    pub fn fake() -> (commit: Self)
        ensures
            commit@ == Self::spec_fake(),
            is_commit_hash(commit@),
    {
        let text = "aaaaaaaaaaaaaaaaaaaaaaaaaaaaaaaaaaaaaaaa";
        proof {
            reveal_strlit("aaaaaaaaaaaaaaaaaaaaaaaaaaaaaaaaaaaaaaaa");
            assert(text@ =~= Self::spec_fake());
        }
        CommitHash(text.to_owned())
    }

    /// The whole hash.
    pub fn as_str(&self) -> (text: &str)
        ensures
            text@ == self@,
    {
        self.0.as_str()
    }

    /// An abbreviated 8-character hash.
    pub fn abbrev(&self) -> (short: &str)
        ensures
            short@ == Self::spec_abbrev(self@),
    {
        let text = self.0.as_str();
        if text.unicode_len() >= 8 {
            let short = text.substring_char(0, 8);
            assert(short@ =~= text@.take(8));
            short
        } else {
            text
        }
    }

    /// Parses a hash of exactly 40 lowercase hexadecimal digits.
    pub fn parser(input: &str) -> (parsed: Result<Self, ParseError>)
        ensures
            match parsed {
                Ok(commit) => spec_parse_commit_hash(input@) == Ok::<_, int>(commit@),
                Err(error) => spec_parse_commit_hash(input@) == Err::<Seq<char>, _>(error@.offset)
                    && error@.context == commit_hash_context(),
            },
    {
        let chars = to_chars(input);
        let mut k: usize = 0;
        while k < chars.len() && k < 40 && Self::is_hex(chars[k])
            invariant
                k <= chars@.len(),
                k <= 40,
                forall|j: int| 0 <= j < k ==> is_hex_digit(#[trigger] chars@[j]),
            decreases chars@.len() - k,
        {
            k = k + 1;
        }
        proof {
            lemma_hex_run(chars@, 0, k as int);
        }
        if k < 40 {
            Err(ParseError::new(k, desc("a commit hash")))
        } else if chars.len() == 40 {
            Ok(CommitHash(input.to_owned()))
        } else {
            Err(ParseError::new(40, desc("a commit hash")))
        }
    }

    /// How a hash is shown: abbreviated.
    pub fn to_string(&self) -> (text: String)
        ensures
            text@ == Self::spec_abbrev(self@),
    {
        self.abbrev().to_owned()
    }

    /// How a hash is shown in full.
    pub fn to_full_string(&self) -> (text: String)
        ensures
            text@ == self@,
    {
        self.0.clone()
    }

    fn is_hex(c: char) -> (hex: bool)
        ensures
            hex == is_hex_digit(c),
    {
        ('0' <= c && c <= '9') || ('a' <= c && c <= 'f')
    }
}

} // verus!
