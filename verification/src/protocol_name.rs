//! Human-readable protocol names.
//!
//! A name passes two checks before it is accepted: a byte-length bound and a
//! character-set check admitting only ASCII letters and digits. The invalid
//! characters of a rejected name are reported in order of occurrence.

use vstd::prelude::*;
use vstd::string::StrSliceExecFns;
use vstd::utf8::encode_utf8;

verus! {

/// The length bound a protocol name is checked against, in bytes.
pub const PROTOCOL_NAME_MIN_LENGTH: usize = 5;

/// Whether a character may appear in a protocol name: an ASCII letter or
/// digit.
pub open spec fn is_name_char(c: char) -> bool {
    ('a' <= c && c <= 'z') || ('A' <= c && c <= 'Z') || ('0' <= c && c <= '9')
}

/// The byte length of a candidate name, as the executable length check
/// sees it.
pub open spec fn spec_byte_len(s: Seq<char>) -> usize {
    encode_utf8(s).len() as usize
}

/// The characters of a name that may not appear in one, in order of
/// occurrence.
pub open spec fn invalid_chars_of(s: Seq<char>) -> Seq<char> {
    s.filter(|c: char| !is_name_char(c))
}

fn is_name_character(c: char) -> (r: bool)
    ensures
        r == is_name_char(c),
{
    ('a' <= c && c <= 'z') || ('A' <= c && c <= 'Z') || ('0' <= c && c <= '9')
}

/// Relies on `String: FromIterator<char>`: collecting characters yields the
/// string of exactly those characters in order.
#[verifier::external_body]
fn chars_to_string(chars: &Vec<char>) -> (r: String)
    ensures
        r@ == chars@,
{
    chars.iter().collect()
}

/// The reasons a name is rejected: a character outside the accepted set
/// (carrying every offending character), or a failed length check (carrying
/// the byte length).
#[derive(Debug, PartialEq, Eq)]
pub enum ProtocolNameError {
    InvalidCharacter(String),
    NameToShort(usize),
}

/// A validated protocol name.
#[derive(Clone, Hash)]
pub struct ProtocolName {
    internal: String,
}

impl View for ProtocolName {
    type V = Seq<char>;

    closed spec fn view(&self) -> Seq<char> {
        self.internal@
    }
}

impl ProtocolName {
    /// The length check a candidate name must pass: its byte length may not
    /// exceed the bound.
    pub fn validate_length(input: &str) -> (r: bool)
        ensures
            r == (spec_byte_len(input@) <= PROTOCOL_NAME_MIN_LENGTH),
    {
        input.len() <= PROTOCOL_NAME_MIN_LENGTH
    }

    /// Checks every character of a candidate name against the accepted set
    /// and reports all offending characters, in order of occurrence.
    pub fn validate_characters(input: &str) -> (r: Result<(), String>)
        ensures
            (r is Ok) == (invalid_chars_of(input@).len() == 0),
            r is Err ==> r->Err_0@ == invalid_chars_of(input@),
    {
        let mut ret: bool = true;
        let mut invalid_chars: Vec<char> = Vec::new();
        let len = input.unicode_len();
        let mut i: usize = 0;
        while i < len
            invariant
                0 <= i <= len,
                len == input@.len(),
                invalid_chars@ == invalid_chars_of(input@.take(i as int)),
                ret == (invalid_chars@.len() == 0),
            decreases len - i,
        {
            let c = input.get_char(i);
            if !is_name_character(c) {
                ret = false;
                invalid_chars.push(c);
            }
            proof {
                reveal_with_fuel(Seq::<_>::filter, 2);
                let s = input@;
                let pre = s.take(i as int);
                let cur = s.take(i as int + 1);
                assert(cur.drop_last() =~= pre);
                assert(cur.last() == s[i as int]);
            }
            i += 1;
        }
        proof {
            assert(input@.take(len as int) =~= input@);
        }
        if !ret {
            return Err(chars_to_string(&invalid_chars));
        }
        Ok(())
    }

    /// Whether the candidate name holds any character outside the accepted
    /// set.
    pub fn characters_valid(input: &str) -> (r: bool)
        ensures
            r == exists|i: int| 0 <= i < input@.len() && !is_name_char(#[trigger] input@[i]),
    {
        let len = input.unicode_len();
        let mut i: usize = 0;
        while i < len
            invariant
                0 <= i <= len,
                len == input@.len(),
                forall|j: int| 0 <= j < i ==> is_name_char(#[trigger] input@[j]),
            decreases len - i,
        {
            let c = input.get_char(i);
            if !is_name_character(c) {
                return true;
            }
            i += 1;
        }
        false
    }

    /// Validates a candidate name: the length check first, then the
    /// character check; on success the name is kept verbatim.
    pub fn new(input: String) -> (r: Result<ProtocolName, ProtocolNameError>)
        ensures
            ({
                let length_ok = spec_byte_len(input@) <= PROTOCOL_NAME_MIN_LENGTH;
                let invalid = invalid_chars_of(input@);
                match r {
                    Ok(p) => length_ok && invalid.len() == 0 && p@ == input@,
                    Err(e) => match e {
                        ProtocolNameError::NameToShort(l) => !length_ok && l == spec_byte_len(
                            input@,
                        ),
                        ProtocolNameError::InvalidCharacter(s) => length_ok && invalid.len() != 0
                            && s@ == invalid,
                    },
                }
            }),
    {
        if !Self::validate_length(input.as_str()) {
            return Err(ProtocolNameError::NameToShort(input.as_str().len()));
        }
        match Self::validate_characters(input.as_str()) {
            Ok(_) => {},
            Err(e) => {
                return Err(ProtocolNameError::InvalidCharacter(e));
            },
        }
        Ok(ProtocolName { internal: input })
    }

    /// The validated name, as a borrowed string.
    pub fn to_str(&self) -> (r: &str)
        ensures
            r@ == self@,
    {
        self.internal.as_str()
    }

    /// The validated name, as an owned string.
    pub fn to_string(&self) -> (r: String)
        ensures
            r@ == self@,
    {
        self.internal.clone()
    }
}

} // verus!
