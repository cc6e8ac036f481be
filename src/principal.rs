//! Principals (authenticated account or program identities) and the set of
//! principals whose authorization accompanies a call.
use vstd::prelude::*;

verus! {

/// An account or program identity, held as its textual key.
#[derive(Debug, Clone)]
pub struct Principal {
    pub key: String,
}

impl View for Principal {
    type V = Seq<char>;

    open spec fn view(&self) -> Seq<char> {
        self.key@
    }
}

impl Principal {
    pub fn new(key: &str) -> (r: Principal)
        ensures
            r@ == key@,
    {
        Principal { key: key.to_owned() }
    }

    /// Two principals are the same identity when their keys agree.
    pub fn same(&self, other: &Principal) -> (r: bool)
        ensures
            r == (self@ == other@),
    {
        self.key == other.key
    }

    /// A copy equal to `self` in every field.
    pub fn duplicate(&self) -> (r: Principal)
        ensures
            r == *self,
    {
        Principal { key: self.key.clone() }
    }
}

impl PartialEq for Principal {
    fn eq(&self, other: &Principal) -> (r: bool) {
        self.key == other.key
    }
}

impl vstd::std_specs::cmp::PartialEqSpecImpl for Principal {
    open spec fn obeys_eq_spec() -> bool {
        true
    }

    open spec fn eq_spec(&self, other: &Principal) -> bool {
        self@ == other@
    }
}

/// Whether some principal of `ps` has the identity `key`.
pub open spec fn holds_key(ps: Seq<Principal>, key: Seq<char>) -> bool {
    exists|i: int| 0 <= i < ps.len() && (#[trigger] ps[i])@ == key
}

/// The principals whose authorization accompanies one call. Every operation
/// that acts for a principal first checks that this principal signed.
#[derive(Debug, Clone)]
pub struct CallAuth {
    pub signers: Vec<Principal>,
}

impl CallAuth {
    /// A call signed by nobody.
    pub fn unsigned() -> (r: CallAuth)
        ensures
            r.signers@.len() == 0,
            forall|key: Seq<char>| !(#[trigger] r.authorizes(key)),
    {
        CallAuth { signers: Vec::new() }
    }

    /// A call signed by `p` alone.
    pub fn signed_by(p: &Principal) -> (r: CallAuth)
        ensures
            r.signers@ == seq![*p],
            forall|key: Seq<char>| #[trigger] r.authorizes(key) == (key == p@),
    {
        let mut signers: Vec<Principal> = Vec::new();
        signers.push(p.duplicate());
        let r = CallAuth { signers };
        assert(r.signers@[0] == *p);
        r
    }

    pub open spec fn authorizes(&self, key: Seq<char>) -> bool {
        holds_key(self.signers@, key)
    }

    /// Whether `p` signed the call.
    pub fn has_signed(&self, p: &Principal) -> (r: bool)
        ensures
            r == self.authorizes(p@),
    {
        let mut i: usize = 0;
        while i < self.signers.len()
            invariant
                i <= self.signers@.len(),
                forall|j: int| 0 <= j < i ==> (#[trigger] self.signers@[j])@ != p@,
            decreases self.signers@.len() - i,
        {
            if self.signers[i].same(p) {
                return true;
            }
            i = i + 1;
        }
        false
    }
}

} // verus!
