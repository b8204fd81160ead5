//! Local branches: refs of kind `heads`.

use vstd::prelude::*;
use vstd::std_specs::cmp::PartialEqSpecImpl;
use vstd::string::*;
use crate::git::refs::name::Ref;
use crate::git::refs::name::RefModel;
use crate::git::refs::remote_branch::RemoteBranchRef;
use crate::text::str_eq;

verus! {

/// A git reference to a local branch. Its value is the branch name.
#[derive(Debug, Eq, Hash)]
pub struct LocalBranchRef(Ref);

impl View for LocalBranchRef {
    type V = Seq<char>;

    closed spec fn view(&self) -> Seq<char> {
        self.0@.name
    }
}

impl Clone for LocalBranchRef {
    fn clone(&self) -> (copy: Self)
        ensures
            copy@ == self@,
    {
        proof {
            use_type_invariant(self);
        }
        LocalBranchRef(self.0.clone())
    }
}

impl PartialEq for LocalBranchRef {
    fn eq(&self, other: &Self) -> (same: bool) {
        str_eq(self.branch_name(), other.branch_name())
    }
}

impl PartialEqSpecImpl for LocalBranchRef {
    open spec fn obeys_eq_spec() -> bool {
        true
    }

    open spec fn eq_spec(&self, other: &Self) -> bool {
        self@ == other@
    }
}

impl PartialEq<Ref> for LocalBranchRef {
    fn eq(&self, other: &Ref) -> (same: bool) {
        other.is_local_branch() && str_eq(self.branch_name(), other.name())
    }
}

impl PartialEqSpecImpl<Ref> for LocalBranchRef {
    open spec fn obeys_eq_spec() -> bool {
        true
    }

    open spec fn eq_spec(&self, other: &Ref) -> bool {
        self.spec_as_ref() == other@
    }
}

impl LocalBranchRef {
    #[verifier::type_invariant]
    spec fn kind_is_heads(self) -> bool {
        self.0@.kind == "heads"@
    }

    /// The ref that this branch is: `refs/heads/<name>`.
    pub open spec fn spec_as_ref(&self) -> RefModel {
        RefModel { kind: "heads"@, name: self@ }
    }

    /// The remote-tracking branch of this name on `remote`, as its qualified name.
    pub open spec fn spec_on_remote(&self, remote: Seq<char>) -> Seq<char> {
        remote + "/"@ + self@
    }

    /// The local branch named `name`.
    pub fn new(name: String) -> (branch: Self)
        ensures
            branch@ == name@,
    {
        LocalBranchRef(Ref::new(String::from_str("heads"), name))
    }

    /// The branch named by `name`.
    pub fn from(name: &str) -> (branch: Self)
        ensures
            branch@ == name@,
    {
        Self::new(name.to_owned())
    }

    /// The name of this local branch.
    pub fn branch_name(&self) -> (name: &str)
        ensures
            name@ == self@,
    {
        self.0.name()
    }

    /// The underlying ref.
    pub fn as_ref(&self) -> (inner: &Ref)
        ensures
            inner@ == self.spec_as_ref(),
    {
        proof {
            use_type_invariant(self);
        }
        &self.0
    }

    /// The remote-tracking branch with this name on `remote`.
    pub fn on_remote(&self, remote: &str) -> (tracking: RemoteBranchRef)
        ensures
            tracking@ == self.spec_on_remote(remote@),
    {
        RemoteBranchRef::new(remote, self.branch_name())
    }

    /// Narrows a ref to a local branch: `Ok` exactly for the refs of kind `heads`.
    /// Another ref comes back unchanged in `Err`.
    pub fn try_from(value: Ref) -> (narrowed: Result<Self, Ref>)
        ensures
            match narrowed {
                Ok(branch) => value@.kind == "heads"@ && branch.spec_as_ref() == value@,
                Err(other) => value@.kind != "heads"@ && other@ == value@,
            },
    {
        if value.is_local_branch() {
            Ok(LocalBranchRef(value))
        } else {
            Err(value)
        }
    }

    /// The short form: the branch name.
    pub fn to_string(&self) -> (text: String)
        ensures
            text@ == self@,
    {
        self.0.to_string()
    }

    /// The fully qualified form: `refs/heads/<name>`.
    pub fn to_qualified_string(&self) -> (text: String)
        ensures
            text@ == self.spec_as_ref().qualified(),
    {
        proof {
            use_type_invariant(self);
        }
        self.0.to_qualified_string()
    }
}

} // verus!
