use vstd::prelude::*;

verus! {

/// Who may invoke the privileged commands. Built once from the configuration
/// and never changed afterwards.
pub struct AuthorizationPolicy {
    allowed: Vec<String>,
}

impl AuthorizationPolicy {
    /// The configured identities, in the order in which they were given.
    pub closed spec fn entries(&self) -> Seq<Seq<char>> {
        Seq::new(self.allowed@.len(), |i: int| self.allowed@[i]@)
    }

    /// No identity is configured: everyone is let in.
    pub open spec fn is_open(&self) -> bool {
        self.entries().len() == 0
    }

    /// The decision for one requester: an open policy permits everyone, any
    /// other policy permits exactly the identities it lists.
    pub open spec fn permits(&self, requester: Seq<char>) -> bool {
        self.is_open() || self.entries().contains(requester)
    }

    /// The policy that lets everyone in.
    pub fn unrestricted() -> (policy: Self)
        ensures
            policy.entries() == Seq::<Seq<char>>::empty(),
            policy.is_open(),
    {
        let policy = AuthorizationPolicy { allowed: Vec::new() };
        assert(policy.entries() =~= Seq::<Seq<char>>::empty());
        policy
    }

    /// The policy that lets in the listed identities and nobody else; with an
    /// empty list, everyone.
    pub fn from_ids(ids: Vec<String>) -> (policy: Self)
        ensures
            policy.entries() == Seq::new(ids@.len(), |i: int| ids@[i]@),
    {
        AuthorizationPolicy { allowed: ids }
    }

    /// The policy of a configuration with at most one allowed identity.
    pub fn from_single(id: Option<String>) -> (policy: Self)
        ensures
            policy.entries() == match id {
                Some(s) => seq![s@],
                None => Seq::<Seq<char>>::empty(),
            },
    {
        let mut allowed: Vec<String> = Vec::new();
        let ghost given = id;
        if let Some(s) = id {
            allowed.push(s);
        }
        let policy = AuthorizationPolicy { allowed };
        proof {
            match given {
                Some(s) => assert(policy.entries() =~= seq![s@]),
                None => assert(policy.entries() =~= Seq::<Seq<char>>::empty()),
            }
        }
        policy
    }

    /// Whether no identity is configured.
    pub fn is_unrestricted(&self) -> (open: bool)
        ensures
            open == self.is_open(),
    {
        self.allowed.len() == 0
    }

    /// Whether `requester` may invoke the privileged commands.
    pub fn is_authorized(&self, requester: &str) -> (allowed: bool)
        ensures
            allowed == self.permits(requester@),
            self.is_open() ==> allowed,
            !self.is_open() && !self.entries().contains(requester@) ==> !allowed,
    {
        if self.allowed.len() == 0 {
            return true;
        }
        let wanted = requester.to_owned();
        let mut i: usize = 0;
        while i < self.allowed.len()
            invariant
                i <= self.allowed.len(),
                wanted@ == requester@,
                forall|j: int| 0 <= j < i ==> self.entries()[j] != requester@,
            decreases self.allowed.len() - i,
        {
            if self.allowed[i] == wanted {
                assert(self.entries()[i as int] == requester@);
                return true;
            }
            i = i + 1;
        }
        false
    }
}

} // verus!
