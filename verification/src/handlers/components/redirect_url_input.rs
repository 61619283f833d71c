//! The input for a new redirect, with a key proposed.

use crate::utils::strings::{generate_random_string, is_key_char};
use vstd::prelude::*;

verus! {

/// What the input shows.
#[derive(Debug)]
pub struct RedirectURLInput {
    /// The key that is proposed for the new redirect.
    pub shortened_url: String,
}

/// The input with a fresh random key of four characters, each a lower-case
/// letter or a digit.
pub fn get() -> (input: RedirectURLInput)
    ensures
        input.shortened_url@.len() == 4,
        forall|i: int|
            0 <= i < input.shortened_url@.len() ==> is_key_char(#[trigger] input.shortened_url@[i]),
{
    RedirectURLInput { shortened_url: generate_random_string(4) }
}

} // verus!
