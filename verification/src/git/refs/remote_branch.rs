//! Remote-tracking branches: refs of kind `remotes`, named `<remote>/<branch>`.

use vstd::prelude::*;
use vstd::std_specs::cmp::PartialEqSpecImpl;
use vstd::string::*;
use crate::git::refs::local_branch::LocalBranchRef;
use crate::git::refs::name::Ref;
use crate::git::refs::name::RefModel;
use crate::text::find_from;
use crate::text::lemma_find_from_bounds;
use crate::text::slice_to_string;
use crate::text::spec_find_from;
use crate::text::str_eq;
use crate::text::to_chars;

verus! {

/// Whether `name` holds a slash, so that it splits into a remote and a branch.
pub open spec fn has_slash(name: Seq<char>) -> bool {
    spec_find_from(name, 0, '/') < name.len()
}

/// The part of a qualified name before its first slash.
pub open spec fn spec_remote_of(name: Seq<char>) -> Seq<char> {
    name.take(spec_find_from(name, 0, '/'))
}

/// The part of a qualified name after its first slash.
pub open spec fn spec_branch_of(name: Seq<char>) -> Seq<char> {
    name.skip(spec_find_from(name, 0, '/') + 1)
}

/// A name put together from a remote and a branch holds a slash; where the remote
/// itself holds none, it splits back into the two.
pub proof fn lemma_join_then_split(remote: Seq<char>, branch: Seq<char>)
    ensures
        has_slash(remote + "/"@ + branch),
        (forall|k: int| 0 <= k < remote.len() ==> remote[k] != '/') ==> {
            &&& spec_remote_of(remote + "/"@ + branch) == remote
            &&& spec_branch_of(remote + "/"@ + branch) == branch
        },
{
    reveal_strlit("/");
    let name = remote + "/"@ + branch;
    lemma_find_from_bounds(name, 0, '/');
    let at = remote.len() as int;
    assert(name[at] == '/');
    if forall|k: int| 0 <= k < remote.len() ==> remote[k] != '/' {
        assert forall|k: int| 0 <= k < at implies name[k] != '/' by {
            assert(name[k] == remote[k]);
        }
        assert(spec_find_from(name, 0, '/') == at);
        assert(name.take(at) =~= remote);
        assert(name.skip(at + 1) =~= branch);
    }
}

/// A git reference to a remote-tracking branch. Its value is the qualified name
/// `<remote>/<branch>`, which always holds a slash.
#[derive(Debug, Eq, Hash)]
pub struct RemoteBranchRef(Ref);

impl View for RemoteBranchRef {
    type V = Seq<char>;

    closed spec fn view(&self) -> Seq<char> {
        self.0@.name
    }
}

impl Clone for RemoteBranchRef {
    fn clone(&self) -> (copy: Self)
        ensures
            copy@ == self@,
    {
        proof {
            use_type_invariant(self);
        }
        RemoteBranchRef(self.0.clone())
    }
}

impl PartialEq for RemoteBranchRef {
    fn eq(&self, other: &Self) -> (same: bool) {
        str_eq(self.qualified_branch_name(), other.qualified_branch_name())
    }
}

impl PartialEqSpecImpl for RemoteBranchRef {
    open spec fn obeys_eq_spec() -> bool {
        true
    }

    open spec fn eq_spec(&self, other: &Self) -> bool {
        self@ == other@
    }
}

impl PartialEq<Ref> for RemoteBranchRef {
    fn eq(&self, other: &Ref) -> (same: bool) {
        other.is_remote_branch() && str_eq(self.qualified_branch_name(), other.name())
    }
}

impl PartialEqSpecImpl<Ref> for RemoteBranchRef {
    open spec fn obeys_eq_spec() -> bool {
        true
    }

    open spec fn eq_spec(&self, other: &Ref) -> bool {
        self.spec_as_ref() == other@
    }
}

impl RemoteBranchRef {
    #[verifier::type_invariant]
    spec fn remote_and_branch_present(self) -> bool {
        &&& self.0@.kind == "remotes"@
        &&& has_slash(self.0@.name)
    }

    /// The ref that this branch is: `refs/remotes/<remote>/<branch>`.
    pub open spec fn spec_as_ref(&self) -> RefModel {
        RefModel { kind: "remotes"@, name: self@ }
    }

    /// The branch `name` on the remote `remote`.
    pub fn new(remote: &str, name: &str) -> (branch: Self)
        ensures
            branch@ == remote@ + "/"@ + name@,
    {
        let mut qualified = String::from_str(remote);
        qualified.append("/");
        qualified.append(name);
        proof {
            lemma_join_then_split(remote@, name@);
        }
        RemoteBranchRef(Ref::new(String::from_str("remotes"), qualified))
    }

    /// The qualified name of this branch, including the remote name.
    pub fn qualified_branch_name(&self) -> (name: &str)
        ensures
            name@ == self@,
            has_slash(self@),
    {
        proof {
            use_type_invariant(self);
        }
        self.0.name()
    }

    /// The name of the remote and the name of the branch on it.
    pub fn remote_and_branch(&self) -> (parts: (String, String))
        ensures
            parts.0@ == spec_remote_of(self@),
            parts.1@ == spec_branch_of(self@),
    {
        let name = self.qualified_branch_name();
        let chars = to_chars(name);
        let slash = find_from(&chars, 0, '/');
        assert(slash < chars@.len());
        let length = chars.len();
        let parts = (slice_to_string(name, 0, slash), slice_to_string(name, slash + 1, length));
        assert(parts.0@ =~= spec_remote_of(self@));
        assert(parts.1@ =~= spec_branch_of(self@));
        parts
    }

    /// The name of the remote.
    pub fn remote(&self) -> (remote: String)
        ensures
            remote@ == spec_remote_of(self@),
    {
        self.remote_and_branch().0
    }

    /// The name of the branch on the remote.
    pub fn branch_name(&self) -> (name: String)
        ensures
            name@ == spec_branch_of(self@),
    {
        self.remote_and_branch().1
    }

    /// The local branch with the same branch name.
    pub fn as_local(&self) -> (local: LocalBranchRef)
        ensures
            local@ == spec_branch_of(self@),
    {
        LocalBranchRef::new(self.branch_name())
    }

    /// The underlying ref.
    pub fn as_ref(&self) -> (inner: &Ref)
        ensures
            inner@ == self.spec_as_ref(),
    {
        proof {
            use_type_invariant(self);
        }
        &self.0
    }

    /// Narrows a ref to a remote-tracking branch: `Ok` exactly for the refs of kind
    /// `remotes` whose name holds a slash. Another ref comes back unchanged in `Err`.
    pub fn try_from(value: Ref) -> (narrowed: Result<Self, Ref>)
        ensures
            match narrowed {
                Ok(branch) => value@.kind == "remotes"@ && has_slash(value@.name)
                    && branch.spec_as_ref() == value@,
                Err(other) => !(value@.kind == "remotes"@ && has_slash(value@.name)) && other@
                    == value@,
            },
    {
        if value.is_remote_branch() {
            let chars = to_chars(value.name());
            let slash = find_from(&chars, 0, '/');
            if slash < chars.len() {
                return Ok(RemoteBranchRef(value));
            }
        }
        Err(value)
    }

    /// The short form: `<remote>/<branch>`.
    pub fn to_string(&self) -> (text: String)
        ensures
            text@ == self@,
    {
        self.0.to_string()
    }

    /// The fully qualified form: `refs/remotes/<remote>/<branch>`.
    pub fn to_qualified_string(&self) -> (text: String)
        ensures
            text@ == self.spec_as_ref().qualified(),
    {
        proof {
            use_type_invariant(self);
        }
        self.0.to_qualified_string()
    }
}

} // verus!
