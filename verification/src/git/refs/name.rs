//! Reference names of the form `refs/<kind>/<name>`.

use vstd::prelude::*;
use vstd::string::*;
use crate::parse::ContextModel;
use crate::parse::desc;
use crate::parse::ParseError;
use crate::text::find_from;
use crate::text::lemma_find_from_bounds;
use crate::text::matches_at;
use crate::text::slice_to_string;
use crate::text::spec_find_from;
use crate::text::spec_matches_at;
use crate::text::str_eq;
use crate::text::to_chars;

verus! {

/// The mathematical value of a [`Ref`].
pub struct RefModel {
    /// The first path segment after `refs/`.
    pub kind: Seq<char>,
    /// Everything after the kind; it may hold further slashes.
    pub name: Seq<char>,
}

impl RefModel {
    /// The fully qualified text `refs/<kind>/<name>`.
    pub open spec fn qualified(self) -> Seq<char> {
        "refs/"@ + self.kind + "/"@ + self.name
    }

    /// What a parser can produce: a kind without slashes, and neither part empty.
    pub open spec fn well_formed(self) -> bool {
        &&& self.kind.len() > 0
        &&& self.name.len() > 0
        &&& forall|k: int| 0 <= k < self.kind.len() ==> self.kind[k] != '/'
    }
}

/// What a ref parser makes of `s`: the ref, or the position where `s` stops being one.
///
/// A ref starts with `refs/`, then has a kind of at least one character up to the next
/// slash, and after that slash a name of at least one character.
pub open spec fn spec_parse_ref(s: Seq<char>) -> Result<RefModel, int> {
    let start = "refs/"@.len() as int;
    let slash = spec_find_from(s, start, '/');
    if !spec_matches_at(s, 0, "refs/"@) {
        Err(0)
    } else if slash == start {
        Err(start)
    } else if slash + 1 >= s.len() {
        Err(s.len() as int)
    } else {
        Ok(RefModel { kind: s.subrange(start, slash), name: s.subrange(slash + 1, s.len() as int) })
    }
}

/// The context of every ref failure.
pub open spec fn ref_context() -> ContextModel {
    ContextModel::Description("a ref name"@)
}

/// A parsed ref is well formed, and its qualified text is the text that was parsed.
pub proof fn lemma_parse_then_qualified(s: Seq<char>)
    ensures
        spec_parse_ref(s) matches Ok(parsed) ==> parsed.well_formed() && parsed.qualified() == s,
        spec_parse_ref(s) matches Err(offset) ==> 0 <= offset <= s.len(),
{
    reveal_strlit("refs/");
    reveal_strlit("/");
    if spec_matches_at(s, 0, "refs/"@) {
        lemma_find_from_bounds(s, 5, '/');
        if let Ok(parsed) = spec_parse_ref(s) {
            let slash = spec_find_from(s, 5, '/');
            assert(parsed.qualified() =~= s) by {
                assert(s.subrange(0, 5) == "refs/"@);
                assert forall|k: int| 0 <= k < s.len() implies parsed.qualified()[k] == s[k] by {
                    if k < 5 {
                        assert(s.subrange(0, 5)[k] == s[k]);
                    }
                }
            }
        }
    }
}

/// The qualified text of a well-formed ref parses back to that ref.
pub proof fn lemma_qualified_then_parse(model: RefModel)
    requires
        model.well_formed(),
    ensures
        spec_parse_ref(model.qualified()) == Ok::<_, int>(model),
{
    reveal_strlit("refs/");
    reveal_strlit("/");
    let s = model.qualified();
    let slash = 5 + model.kind.len() as int;
    assert(s.subrange(0, 5) =~= "refs/"@);
    assert(s[slash] == '/');
    assert forall|k: int| 5 <= k < slash implies s[k] != '/' by {
        assert(s[k] == model.kind[k - 5]);
    }
    lemma_find_from_bounds(s, 5, '/');
    assert(spec_find_from(s, 5, '/') == slash);
    assert(s.subrange(5, slash) =~= model.kind);
    assert(s.subrange(slash + 1, s.len() as int) =~= model.name);
}

/// A git reference.
///
/// For branches there are [`super::LocalBranchRef`] (`refs/heads/*`),
/// [`super::RemoteBranchRef`] (`refs/remotes/*`) and [`super::BranchRef`] for either.
#[derive(Debug, PartialEq, Eq, Hash)]
pub struct Ref {
    /// The ref kind; usually `heads`, `remotes` or `tags`.
    kind: String,
    /// The ref name; everything after the kind.
    name: String,
}

impl View for Ref {
    type V = RefModel;

    closed spec fn view(&self) -> RefModel {
        RefModel { kind: self.kind@, name: self.name@ }
    }
}

impl Clone for Ref {
    fn clone(&self) -> (copy: Self)
        ensures
            copy@ == self@,
    {
        Ref { kind: self.kind.clone(), name: self.name.clone() }
    }
}

impl std::str::FromStr for Ref {
    type Err = ParseError;

    fn from_str(input: &str) -> (parsed: Result<Self, ParseError>)
        ensures
            match parsed {
                Ok(made) => spec_parse_ref(input@) == Ok::<_, int>(made@) && made@.well_formed()
                    && made@.qualified() == input@,
                Err(error) => spec_parse_ref(input@) == Err::<RefModel, _>(error@.offset)
                    && error@.context == ref_context() && error@.offset <= input@.len(),
            },
    {
        Self::parser(input)
    }
}

impl Ref {
    /// The `kind` of a local branch.
    pub const HEADS: &'static str = "heads";

    /// The `kind` of a remote-tracking branch.
    pub const REMOTES: &'static str = "remotes";

    /// The `kind` of a tag.
    pub const TAGS: &'static str = "tags";

    /// The ref `refs/<kind>/<name>`. The parts are taken as they are.
    pub fn new(kind: String, name: String) -> (made: Self)
        ensures
            made@ == (RefModel { kind: kind@, name: name@ }),
    {
        Ref { kind, name }
    }

    /// The ref name; everything after the kind.
    pub fn name(&self) -> (name: &str)
        ensures
            name@ == self@.name,
    {
        self.name.as_str()
    }

    /// The ref kind; usually `heads`, `remotes`, or `tags`.
    pub fn kind(&self) -> (kind: &str)
        ensures
            kind@ == self@.kind,
    {
        self.kind.as_str()
    }

    /// Whether this is a remote-tracking branch, that is, its kind is `remotes`.
    pub fn is_remote_branch(&self) -> (remote: bool)
        ensures
            remote == (self@.kind == "remotes"@),
    {
        str_eq(self.kind.as_str(), "remotes")
    }

    /// Whether this is a local branch, that is, its kind is `heads`.
    pub fn is_local_branch(&self) -> (local: bool)
        ensures
            local == (self@.kind == "heads"@),
    {
        str_eq(self.kind.as_str(), "heads")
    }

    /// Whether this is a tag, that is, its kind is `tags`.
    pub fn is_tag(&self) -> (tag: bool)
        ensures
            tag == (self@.kind == "tags"@),
    {
        str_eq(self.kind.as_str(), "tags")
    }

    /// Parses a ref name like `refs/puppy/doggy`.
    ///
    /// At least one slash must follow `refs/`: `refs/puppy` is no ref name.
    pub fn parser(input: &str) -> (parsed: Result<Self, ParseError>)
        ensures
            match parsed {
                Ok(made) => spec_parse_ref(input@) == Ok::<_, int>(made@) && made@.well_formed()
                    && made@.qualified() == input@,
                Err(error) => spec_parse_ref(input@) == Err::<RefModel, _>(error@.offset)
                    && error@.context == ref_context() && error@.offset <= input@.len(),
            },
    {
        proof {
            lemma_parse_then_qualified(input@);
        }
        let chars = to_chars(input);
        let prefix = "refs/";
        if !matches_at(&chars, 0, prefix) {
            return Err(ParseError::new(0, desc("a ref name")));
        }
        let start = prefix.unicode_len();
        let slash = find_from(&chars, start, '/');
        if slash == start {
            Err(ParseError::new(start, desc("a ref name")))
        } else if slash >= chars.len() || slash + 1 >= chars.len() {
            Err(ParseError::new(chars.len(), desc("a ref name")))
        } else {
            Ok(
                Ref {
                    kind: slice_to_string(input, start, slash),
                    name: slice_to_string(input, slash + 1, chars.len()),
                },
            )
        }
    }

    /// The short form: the name alone.
    pub fn to_string(&self) -> (text: String)
        ensures
            text@ == self@.name,
    {
        self.name.clone()
    }

    /// The fully qualified form: `refs/<kind>/<name>`.
    pub fn to_qualified_string(&self) -> (text: String)
        ensures
            text@ == self@.qualified(),
    {
        let mut text = String::from_str("refs/");
        text.append(self.kind.as_str());
        text.append("/");
        text.append(self.name.as_str());
        text
    }
}

} // verus!
