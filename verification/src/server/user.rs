//! The user name rule and the peer that passed it.

use vstd::prelude::*;
use vstd::string::*;
use crate::error::ChatError;

verus! {

/// Fewest characters a user name may have.
pub const MIN_USERNAME_CHARS: usize = 3;

/// Most characters a user name may have.
pub const MAX_USERNAME_CHARS: usize = 20;

/// Whether `c` is a letter or a digit in the sense of Unicode: what
/// `char::is_alphanumeric` returns for it.
pub uninterp spec fn alphanumeric(c: char) -> bool;

/// Calls `char::is_alphanumeric`, which looks the character up in the
/// Unicode tables of the standard library. The contract only gives the
/// answer its name.
#[verifier::external_body]
fn is_alphanumeric(c: char) -> (answer: bool)
    ensures
        answer == alphanumeric(c),
{
    c.is_alphanumeric()
}

/// Every character of `text` is a letter or a digit.
pub open spec fn all_alphanumeric(text: Seq<char>) -> bool {
    forall|i: int| 0 <= i < text.len() ==> alphanumeric(#[trigger] text[i])
}

/// The rule itself, on the two facts it reads: the number of characters and
/// whether all of them are letters or digits.
pub open spec fn username_rule(chars: nat, alphanumeric: bool) -> bool {
    MIN_USERNAME_CHARS <= chars <= MAX_USERNAME_CHARS && alphanumeric
}

/// A user name is valid when it has 3 to 20 characters, each of them a
/// letter or a digit.
pub open spec fn valid_username(username: Seq<char>) -> bool {
    username_rule(username.len(), all_alphanumeric(username))
}

/// Decides the rule from the number of characters of a name and from
/// whether all of them are letters or digits.
pub fn obeys_username_rule(chars: usize, alphanumeric: bool) -> (ok: bool)
    ensures
        ok == username_rule(chars as nat, alphanumeric),
{
    MIN_USERNAME_CHARS <= chars && chars <= MAX_USERNAME_CHARS && alphanumeric
}

/// Whether the first `chars` characters of `text` are all letters or digits.
fn prefix_is_alphanumeric(text: &str, chars: usize) -> (ok: bool)
    requires
        chars <= text@.len(),
    ensures
        ok == all_alphanumeric(text@.take(chars as int)),
{
    let mut i: usize = 0;
    while i < chars
        invariant
            i <= chars <= text@.len(),
            all_alphanumeric(text@.take(i as int)),
        decreases chars - i,
    {
        if !is_alphanumeric(text.get_char(i)) {
            assert(text@.take(chars as int)[i as int] == text@[i as int]);
            return false;
        }
        i += 1;
    }
    true
}

/// Whether `username` may be used as a user name.
pub fn is_valid_username(username: &str) -> (ok: bool)
    ensures
        ok == valid_username(username@),
{
    let chars = username.unicode_len();
    if chars > MAX_USERNAME_CHARS {
        return false;
    }
    let alphanumeric = prefix_is_alphanumeric(username, chars);
    assert(username@.take(chars as int) == username@);
    obeys_username_rule(chars, alphanumeric)
}

/// A connection whose user name passed the rule.
#[derive(Debug, PartialEq, Eq)]
pub struct Peer {
    /// The name the connection chose. It never changes.
    pub username: String,
}

impl Peer {
    /// Accepts `username` if it is valid, and refuses it with
    /// `InvalidUsername` otherwise.
    pub fn new(username: &str) -> (peer: Result<Self, ChatError>)
        ensures
            match peer {
                Ok(accepted) => valid_username(username@) && accepted.username@ == username@,
                Err(fault) => !valid_username(username@) && fault == ChatError::InvalidUsername,
            },
    {
        if !is_valid_username(username) {
            return Err(ChatError::InvalidUsername);
        }
        Ok(Peer { username: String::from_str(username) })
    }
}

} // verus!
