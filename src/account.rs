use vstd::prelude::*;

verus! {

/// Whether `near_sdk::env::is_valid_account_id` accepts these characters'
/// bytes as an account id.
pub uninterp spec fn account_id_valid(a: Seq<char>) -> bool;

/// Relies on `near_sdk::env::is_valid_account_id`: whether the account id is
/// well formed depends on its text alone.
#[verifier::external_body]
pub(crate) fn is_valid_account(a: &String) -> (r: bool)
    ensures
        r == account_id_valid(a@),
{
    near_sdk::env::is_valid_account_id(a.as_bytes())
}

/// Checks that `a` is a well-formed account id.
pub fn assert_valid_account(a: &String) -> (r: Result<(), crate::error::Error>)
    ensures
        account_id_valid(a@) ==> r == Ok::<(), crate::error::Error>(()),
        !account_id_valid(a@) ==> r == Err::<(), crate::error::Error>(
            crate::error::Error::InvalidAccount { account: *a },
        ),
{
    if is_valid_account(a) {
        Ok(())
    } else {
        Err(crate::error::Error::InvalidAccount { account: a.clone() })
    }
}

} // verus!
