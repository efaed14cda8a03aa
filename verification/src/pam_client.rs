//! Arguments of the PAM helper.

use crate::decimal::{
    decimal, is_canonical, lemma_decimal_is_numeral, lemma_numeral_is_decimal, parse_u32,
};
use vstd::prelude::*;

verus! {

/// Accepts the canonical numeral of a non-root user id, and nothing else.
pub fn parse_user_id(argument: &[u8]) -> (r: Option<u32>)
    ensures
        r matches Some(user_id) ==> user_id != 0 && argument@ == decimal(user_id as nat),
        r is None ==> forall|named: u32|
            named != 0 ==> argument@ != #[trigger] decimal(named as nat),
{
    proof {
        assert forall|user_id: u32| argument@ == #[trigger] decimal(user_id as nat) implies {
            &&& crate::decimal::is_numeral(argument@)
            &&& crate::decimal::decimal_value(argument@) == user_id
        } by {
            lemma_decimal_is_numeral(user_id as nat);
        }
    }
    if !is_canonical(argument) {
        return None;
    }
    match parse_u32(argument) {
        None => None,
        Some(user_id) => {
            proof {
                lemma_numeral_is_decimal(argument@);
            }
            if user_id == 0 {
                None
            } else {
                Some(user_id)
            }
        },
    }
}

} // verus!
