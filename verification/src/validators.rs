use crate::codecs::validated::Validator;
use vstd::prelude::*;
use vstd::string::StrSliceExecFns;
use vstd::string::StringExecFns;

verus! {

/// Whether a character may appear in a player name: an ASCII letter, an
/// ASCII digit, or an underscore.
pub open spec fn word_char(c: char) -> bool {
    let u = c as u32;
    (97 <= u <= 122) || (65 <= u <= 90) || (48 <= u <= 57) || u == 95
}

/// A validator accepting even ints alone.
pub struct EvenIntValidator;

impl Validator for EvenIntValidator {
    type Value = i32;

    open spec fn ok_spec(&self, v: i32) -> bool {
        v % 2 == 0
    }

    open spec fn message_spec(&self, v: i32) -> Seq<char> {
        "Not an even number"@
    }

    fn check(&self, value: &i32) -> (r: Result<(), String>) {
        if *value % 2 == 0 {
            Ok(())
        } else {
            Err(String::from_str("Not an even number"))
        }
    }
}

/// A validator accepting well-formed player names: between three and sixteen
/// characters, all of them ASCII letters, digits or underscores.
pub struct PlayerNameValidator;

impl PlayerNameValidator {
    /// Whether a name has an acceptable length.
    pub open spec fn len_ok(s: Seq<char>) -> bool {
        3 <= s.len() <= 16
    }

    /// Whether every character of a name is acceptable.
    pub open spec fn chars_ok(s: Seq<char>) -> bool {
        forall|i: int| 0 <= i < s.len() ==> word_char(#[trigger] s[i])
    }
}

impl Validator for PlayerNameValidator {
    type Value = String;

    open spec fn ok_spec(&self, v: Seq<char>) -> bool {
        Self::len_ok(v) && Self::chars_ok(v)
    }

    open spec fn message_spec(&self, v: Seq<char>) -> Seq<char> {
        if !Self::len_ok(v) {
            "Player name must be between 3-16 characters long (inclusive)"@
        } else {
            "Player name must only contain alphanumeric characters and underscores"@
        }
    }

    fn check(&self, value: &String) -> (r: Result<(), String>) {
        let n = value.as_str().unicode_len();
        if n < 3 || n > 16 {
            return Err(
                String::from_str("Player name must be between 3-16 characters long (inclusive)"),
            );
        }
        let mut i: usize = 0;
        while i < n
            invariant
                i <= n,
                n == value@.len(),
                3 <= n <= 16,
                forall|j: int| 0 <= j < i ==> word_char(#[trigger] value@[j]),
            decreases n - i,
        {
            let c = value.as_str().get_char(i);
            let u = c as u32;
            let acceptable = (97 <= u && u <= 122) || (65 <= u && u <= 90) || (48 <= u && u <= 57)
                || u == 95;
            if !acceptable {
                proof {
                    assert(!word_char(value@[i as int]));
                    assert(!Self::chars_ok(value@));
                }
                return Err(
                    String::from_str(
                        "Player name must only contain alphanumeric characters and underscores",
                    ),
                );
            }
            i += 1;
        }
        Ok(())
    }
}

/// A validator accepting strings of exactly one character.
pub struct SingleCharacterValidator;

impl Validator for SingleCharacterValidator {
    type Value = String;

    open spec fn ok_spec(&self, v: Seq<char>) -> bool {
        v.len() == 1
    }

    open spec fn message_spec(&self, v: Seq<char>) -> Seq<char> {
        "String must be exactly 1 character long"@
    }

    fn check(&self, value: &String) -> (r: Result<(), String>) {
        if value.as_str().unicode_len() == 1 {
            Ok(())
        } else {
            Err(String::from_str("String must be exactly 1 character long"))
        }
    }
}

/// A validator accepting maps with at least one entry; the entries carry
/// string keys and unsigned long values.
pub struct NonEmptyEntriesValidator;

impl Validator for NonEmptyEntriesValidator {
    type Value = Vec<(String, u64)>;

    open spec fn ok_spec(&self, v: Seq<(Seq<char>, u64)>) -> bool {
        v.len() > 0
    }

    open spec fn message_spec(&self, v: Seq<(Seq<char>, u64)>) -> Seq<char> {
        "Map must not be empty"@
    }

    fn check(&self, value: &Vec<(String, u64)>) -> (r: Result<(), String>) {
        if value.len() > 0 {
            Ok(())
        } else {
            Err(String::from_str("Map must not be empty"))
        }
    }
}

} // verus!
