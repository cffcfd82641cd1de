use vstd::prelude::*;

verus! {

/// The single persisted record. Addresses are held in canonical form.
#[derive(Clone, Debug, PartialEq)]
pub struct State {
    /// The instantiator; set once and never changed.
    pub owner: Vec<u8>,
    /// Where forwarded funds go.
    pub receiver: Vec<u8>,
}

/// Whether two canonical addresses are the same.
pub fn same_address(a: &Vec<u8>, b: &Vec<u8>) -> (r: bool)
    ensures
        r == (a@ == b@),
{
    if a.len() != b.len() {
        return false;
    }
    let mut i: usize = 0;
    while i < a.len()
        invariant
            a@.len() == b@.len(),
            0 <= i <= a@.len(),
            forall|j: int| 0 <= j < i ==> a@[j] == b@[j],
        decreases a@.len() - i,
    {
        if a[i] != b[i] {
            return false;
        }
        i += 1;
    }
    assert(a@ =~= b@);
    true
}

} // verus!
