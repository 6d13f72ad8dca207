//! The client identifier: a string that callers attach to trades and orders
//! to find them again.
//!
//! Its length is counted in bytes of its UTF-8 form, as `str::len` counts
//! it. For text in ASCII that is the number of characters; a character
//! outside ASCII counts for two to four.

use crate::error::ClientIdValidationError;
use vstd::prelude::*;
use vstd::std_specs::cmp::PartialEqSpecImpl;
use vstd::std_specs::convert::{FromSpecImpl, TryFromSpecImpl};
use vstd::string::*;
use vstd::utf8::{encode_scalar, encode_utf8};

verus! {

/// The number of bytes that `s` takes in UTF-8.
pub open spec fn utf8_len(s: Seq<char>) -> nat {
    encode_utf8(s).len()
}

/// A validated client identifier.
///
/// It can only be made from a string of `MIN_LEN` to `MAX_LEN` bytes, and
/// nothing changes it afterwards, so every value of this type is within
/// those bounds.
#[derive(Debug, Hash)]
pub struct ClientId {
    value: String,
}

impl View for ClientId {
    type V = Seq<char>;

    closed spec fn view(&self) -> Seq<char> {
        self.value@
    }
}

impl ClientId {
    /// The minimum length of a client identifier, in bytes.
    pub const MIN_LEN: usize = 1;

    /// The maximum length of a client identifier, in bytes.
    pub const MAX_LEN: usize = 64;

    /// Whether a string of these characters is within the bounds.
    pub open spec fn valid(s: Seq<char>) -> bool {
        Self::MIN_LEN <= utf8_len(s) <= Self::MAX_LEN
    }

    /// What becomes of a string that is offered as an identifier: the
    /// identifier's text, which is the string itself, or the reason for
    /// refusing it. Too short is judged before too long.
    pub open spec fn validate(s: Seq<char>) -> Result<Seq<char>, ClientIdValidationError> {
        if utf8_len(s) < Self::MIN_LEN {
            Err(ClientIdValidationError::TooShort { len: utf8_len(s) as usize })
        } else if utf8_len(s) > Self::MAX_LEN {
            Err(ClientIdValidationError::TooLong { len: utf8_len(s) as usize })
        } else {
            Ok(s)
        }
    }

    /// The invariant of the type: the text is within the bounds.
    pub open spec fn well_formed(&self) -> bool {
        Self::valid(self@)
    }

    #[verifier::type_invariant]
    spec fn bounded(&self) -> bool {
        self.well_formed()
    }

    /// The identifier as a string slice.
    pub fn as_str(&self) -> (res: &str)
        ensures
            res@ == self@,
            self.well_formed(),
    {
        proof {
            use_type_invariant(self);
        }
        self.value.as_str()
    }

    /// Gives up the identifier for the string inside it.
    pub fn into_inner(self) -> (res: String)
        ensures
            res@ == self@,
            self.well_formed(),
    {
        proof {
            use_type_invariant(&self);
        }
        self.value
    }

    /// The identifier as text of its own, as it is displayed.
    pub fn to_string(&self) -> (res: String)
        ensures
            res@ == self@,
    {
        self.value.clone()
    }

    /// Reads an identifier from its serialized form, which is the bare
    /// string. A string that is refused gives the message of the error
    /// that refused it.
    pub fn from_wire(value: String) -> (res: Result<ClientId, String>)
        ensures
            match res {
                Ok(id) => Self::validate(value@) == Ok::<Seq<char>, ClientIdValidationError>(id@)
                    && id.well_formed(),
                Err(message) => Self::validate(value@) is Err && message@ == Self::validate(
                    value@,
                )->Err_0.message_text(),
            },
    {
        match ClientId::try_from(value) {
            Ok(id) => Ok(id),
            Err(error) => Err(error.message()),
        }
    }
}

impl TryFrom<String> for ClientId {
    type Error = ClientIdValidationError;

    /// Accepts a string of `MIN_LEN` to `MAX_LEN` bytes and refuses any
    /// other, with its length.
    fn try_from(value: String) -> (res: Result<Self, Self::Error>)
        ensures
            match res {
                Ok(id) => Self::validate(value@) == Ok::<Seq<char>, ClientIdValidationError>(id@)
                    && id.well_formed(),
                Err(error) => Self::validate(value@) == Err::<Seq<char>, ClientIdValidationError>(
                    error,
                ),
            },
    {
        let len = value.as_str().as_bytes().len();
        if len < Self::MIN_LEN {
            return Err(ClientIdValidationError::TooShort { len });
        }
        if len > Self::MAX_LEN {
            return Err(ClientIdValidationError::TooLong { len });
        }
        Ok(ClientId { value })
    }
}

impl TryFromSpecImpl<String> for ClientId {
    open spec fn obeys_try_from_spec() -> bool {
        true
    }

    closed spec fn try_from_spec(value: String) -> Result<Self, Self::Error> {
        match Self::validate(value@) {
            Ok(_) => Ok(ClientId { value }),
            Err(error) => Err(error),
        }
    }
}

impl TryFrom<&str> for ClientId {
    type Error = ClientIdValidationError;

    /// As for an owned string, of which it makes one first.
    fn try_from(value: &str) -> (res: Result<Self, Self::Error>)
        ensures
            match res {
                Ok(id) => Self::validate(value@) == Ok::<Seq<char>, ClientIdValidationError>(id@)
                    && id.well_formed(),
                Err(error) => Self::validate(value@) == Err::<Seq<char>, ClientIdValidationError>(
                    error,
                ),
            },
    {
        ClientId::try_from(String::from_str(value))
    }
}

/// The owned string that is made on the way is known by its text alone, so
/// no one value can be named as the outcome: what `try_from` returns is
/// stated by its own contract, over the text.
impl TryFromSpecImpl<&str> for ClientId {
    open spec fn obeys_try_from_spec() -> bool {
        false
    }

    closed spec fn try_from_spec(value: &str) -> Result<Self, Self::Error> {
        match Self::validate(value@) {
            Ok(text) => Ok(choose|id: ClientId| id@ == text),
            Err(error) => Err(error),
        }
    }
}

impl From<ClientId> for String {
    /// The string inside the identifier.
    fn from(value: ClientId) -> (res: String)
        ensures
            res@ == value@,
    {
        value.value
    }
}

impl FromSpecImpl<ClientId> for String {
    open spec fn obeys_from_spec() -> bool {
        true
    }

    closed spec fn from_spec(value: ClientId) -> String {
        value.value
    }
}

impl Clone for ClientId {
    fn clone(&self) -> (res: Self)
        ensures
            res@ == self@,
    {
        proof {
            use_type_invariant(self);
        }
        ClientId { value: self.value.clone() }
    }
}

impl PartialEq for ClientId {
    /// Two identifiers are equal when their strings are.
    fn eq(&self, other: &Self) -> (res: bool) {
        self.value == other.value
    }
}

impl PartialEqSpecImpl for ClientId {
    open spec fn obeys_eq_spec() -> bool {
        true
    }

    open spec fn eq_spec(&self, other: &Self) -> bool {
        self@ == other@
    }
}

impl Eq for ClientId {

}

impl AsRef<str> for ClientId {
    fn as_ref(&self) -> (res: &str)
        ensures
            res@ == self@,
    {
        self.value.as_str()
    }
}

/// Every string of `MIN_LEN` to `MAX_LEN` bytes is accepted, and the
/// identifier made from it holds exactly that string.
pub proof fn valid_string_is_accepted(s: Seq<char>)
    requires
        ClientId::MIN_LEN <= utf8_len(s) <= ClientId::MAX_LEN,
    ensures
        ClientId::validate(s) == Ok::<Seq<char>, ClientIdValidationError>(s),
{
}

/// A string of no bytes is refused as too short, with length zero. Only the
/// empty string has no bytes.
pub proof fn empty_string_is_too_short(s: Seq<char>)
    requires
        utf8_len(s) == 0,
    ensures
        s == Seq::<char>::empty(),
        ClientId::validate(s) == Err::<Seq<char>, ClientIdValidationError>(
            ClientIdValidationError::TooShort { len: 0 },
        ),
{
    if s.len() > 0 {
        assert(encode_utf8(s).len() >= encode_scalar(s[0] as u32).len());
        assert(encode_scalar(s[0] as u32).len() >= 1);
    }
    assert(s =~= Seq::<char>::empty());
}

/// A string of one byte more than `MAX_LEN` is refused as too long, with
/// that length.
pub proof fn string_past_max_is_too_long(s: Seq<char>)
    requires
        utf8_len(s) == ClientId::MAX_LEN + 1,
    ensures
        ClientId::validate(s) == Err::<Seq<char>, ClientIdValidationError>(
            ClientIdValidationError::TooLong { len: 65 },
        ),
{
}

/// Whatever string is accepted comes back unchanged from the identifier
/// that was made of it.
pub proof fn accepted_string_comes_back(s: Seq<char>)
    ensures
        ClientId::validate(s) matches Ok(text) ==> text == s,
        ClientId::validate(s) is Ok <==> ClientId::valid(s),
{
}

/// The text of any identifier, offered again as a string, is accepted and
/// gives an identifier equal to the first: writing an identifier out and
/// reading it back loses nothing.
pub proof fn written_identifier_reads_back(id: ClientId)
    requires
        id.well_formed(),
    ensures
        ClientId::validate(id@) == Ok::<Seq<char>, ClientIdValidationError>(id@),
{
}

} // verus!
