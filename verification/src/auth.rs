use vstd::prelude::*;
use crate::error::Error;

verus! {

/// Whose authorization an administrative or service call needs.
#[derive(Clone, Copy, Debug, PartialEq, Eq, Structural)]
pub enum Authorization {
    /// No signer list was given: the account holding the role authorizes.
    RoleHolder,
    /// Every listed signer authorizes.
    EachSigner,
}

/// Every entry of the signer list names the role holder.
pub open spec fn all_role_holders(signer_holds_role: Seq<bool>) -> bool {
    forall|i: int| 0 <= i < signer_holds_role.len() ==> signer_holds_role[i]
}

/// Decides how a call is authorized from its signer list, given for each
/// listed signer whether it holds the role the call needs. An empty list
/// falls back to the role holder; a list naming anyone else is refused.
pub fn authorization_for(signer_holds_role: &Vec<bool>) -> (r: Result<Authorization, Error>)
    ensures
        signer_holds_role@.len() == 0 ==> r == Ok::<Authorization, Error>(Authorization::RoleHolder),
        signer_holds_role@.len() > 0 ==> r == (if all_role_holders(signer_holds_role@) {
            Ok::<Authorization, Error>(Authorization::EachSigner)
        } else {
            Err(Error::Unauthorized)
        }),
{
    let n = signer_holds_role.len();
    if n == 0 {
        return Ok(Authorization::RoleHolder);
    }
    let mut i: usize = 0;
    while i < n
        invariant
            n == signer_holds_role@.len(),
            0 <= i <= n,
            forall|j: int| 0 <= j < i ==> signer_holds_role@[j],
        decreases n - i,
    {
        if !signer_holds_role[i] {
            return Err(Error::Unauthorized);
        }
        i = i + 1;
    }
    Ok(Authorization::EachSigner)
}

} // verus!
