//! The plain values that the client works on: identities, keys and nonces.

use vstd::prelude::*;
use vstd::string::*;

use crate::hex;
use crate::table::Key;

verus! {

broadcast use vstd::array::group_array_axioms;

/// A valid Threema ID, as its text.
#[derive(Debug, Clone)]
pub struct ThreemaId {
    pub text: String,
}

impl View for ThreemaId {
    type V = Seq<char>;

    open spec fn view(&self) -> Seq<char> {
        self.text@
    }
}

impl Key for ThreemaId {
    fn same(&self, other: &Self) -> (same: bool) {
        self.text == other.text
    }
}

impl ThreemaId {
    pub fn to_string(&self) -> (text: String)
        ensures
            text@ == self@,
    {
        self.text.clone()
    }

    /// Another value for the same identity.
    pub fn duplicate(&self) -> (copy: ThreemaId)
        ensures
            copy == *self,
    {
        ThreemaId { text: self.text.clone() }
    }
}

/// Identifies a message between the user and one identity.
#[derive(Debug, Clone)]
pub struct MessageKey {
    pub identity: ThreemaId,
    pub message_id: u64,
}

impl View for MessageKey {
    type V = (Seq<char>, u64);

    open spec fn view(&self) -> (Seq<char>, u64) {
        (self.identity@, self.message_id)
    }
}

impl Key for MessageKey {
    fn same(&self, other: &Self) -> (same: bool) {
        self.message_id == other.message_id && self.identity.same(&other.identity)
    }
}

/// Identifies a group.
#[derive(Debug, Clone)]
pub struct GroupIdentity {
    pub creator_identity: ThreemaId,
    pub group_id: u64,
}

impl View for GroupIdentity {
    type V = (Seq<char>, u64);

    open spec fn view(&self) -> (Seq<char>, u64) {
        (self.creator_identity@, self.group_id)
    }
}

/// A text that should be a Threema ID, and the identity that it is if it is a valid one.
#[derive(Debug, Clone)]
pub struct IdentityText {
    pub text: String,
    pub identity: Option<ThreemaId>,
}

/// The mathematical value of an [`IdentityText`].
#[verifier::ext_equal]
pub ghost struct IdentityTextView {
    pub text: Seq<char>,
    pub identity: Option<Seq<char>>,
}

impl View for IdentityText {
    type V = IdentityTextView;

    open spec fn view(&self) -> IdentityTextView {
        IdentityTextView {
            text: self.text@,
            identity: match self.identity {
                Some(identity) => Some(identity@),
                None => None,
            },
        }
    }
}

/// A nonce of an encrypted message.
#[derive(Debug, Clone, Copy)]
pub struct Nonce(pub [u8; 24]);

impl View for Nonce {
    type V = Seq<u8>;

    open spec fn view(&self) -> Seq<u8> {
        self.0@
    }
}

impl Nonce {
    /// The nonce's lower-case hexadecimal text.
    pub fn to_hex(&self) -> (text: String)
        ensures
            text@ == hex::hex_text(self@),
    {
        hex::hex_encode(self.0.as_slice())
    }
}

/// A contact's public key.
#[derive(Debug, Clone, Copy)]
pub struct PublicKey(pub [u8; 32]);

impl View for PublicKey {
    type V = Seq<u8>;

    open spec fn view(&self) -> Seq<u8> {
        self.0@
    }
}

/// Whether a text is the hexadecimal text of a public key.
pub open spec fn is_key_hex(text: Seq<char>) -> bool {
    text.len() == 64 && hex::is_hex(text)
}

/// Why a text is not that of a public key.
#[derive(Debug, Clone, Copy, PartialEq, Eq, Structural)]
pub enum KeyError {
    WrongLength,
    NotHexadecimal,
}

/// Why a text is not that of a public key, if it is not.
pub open spec fn key_error(text: Seq<char>) -> Option<KeyError> {
    if vstd::utf8::encode_utf8(text).len() != 64 {
        Some(KeyError::WrongLength)
    } else if !hex::is_hex(text) {
        Some(KeyError::NotHexadecimal)
    } else {
        None
    }
}

impl KeyError {
    /// The error in words.
    pub open spec fn words(self) -> Seq<char> {
        match self {
            KeyError::WrongLength => "A public key is 64 hexadecimal digits long"@,
            KeyError::NotHexadecimal => "A public key consists of hexadecimal digits only"@,
        }
    }

    /// The error in words.
    pub fn to_string(&self) -> (text: String)
        ensures
            text@ == self.words(),
    {
        match self {
            KeyError::WrongLength => "A public key is 64 hexadecimal digits long".to_owned(),
            KeyError::NotHexadecimal => {
                "A public key consists of hexadecimal digits only".to_owned()
            },
        }
    }
}

impl PublicKey {
    /// The public key with the given bytes, of which there have to be exactly 32.
    pub fn from_bytes(bytes: &[u8]) -> (key: Option<PublicKey>)
        ensures
            key is Some <==> bytes@.len() == 32,
            key matches Some(key) ==> key@ == bytes@,
    {
        if bytes.len() != 32 {
            return None;
        }
        let mut key: [u8; 32] = [0u8; 32];
        let mut i: usize = 0;
        while i < 32
            invariant
                0 <= i <= 32,
                bytes@.len() == 32,
                forall|j: int| 0 <= j < i ==> key@[j] == bytes@[j],
            decreases 32 - i,
        {
            key[i] = bytes[i];
            i += 1;
        }
        assert(key@ =~= bytes@);
        Some(PublicKey(key))
    }

    /// The public key that a hexadecimal text of either case stands for, or why it is not one.
    pub fn from_hex(text: &str) -> (key: Result<PublicKey, KeyError>)
        ensures
            match key_error(text@) {
                None => key matches Ok(key) && key@ == hex::hex_bytes(text@),
                Some(error) => key == Err::<PublicKey, KeyError>(error),
            },
            key is Ok <==> is_key_hex(text@),
    {
        proof {
            if hex::is_hex(text@) {
                assert(vstd::utf8::is_ascii_chars(text@));
                vstd::utf8::is_ascii_chars_encode_utf8(text@);
            }
        }
        if text.as_bytes().len() != 64 {
            return Err(KeyError::WrongLength);
        }
        let bytes: Vec<u8> = match hex::hex_decode(text) {
            Some(bytes) => bytes,
            None => {
                return Err(KeyError::NotHexadecimal);
            },
        };
        match PublicKey::from_bytes(bytes.as_slice()) {
            Some(key) => Ok(key),
            None => Err(KeyError::WrongLength),
        }
    }

    /// The key's lower-case hexadecimal text.
    pub fn to_string(&self) -> (text: String)
        ensures
            text@ == hex::hex_text(self@),
    {
        hex::hex_encode(self.0.as_slice())
    }
}

/// A text is that of a public key exactly if it is made of 64 hexadecimal digits; of any other text
/// it is said whether its length is wrong or, if it is not, that it is not hexadecimal.
pub proof fn unreadable_keys_are_explained(text: Seq<char>)
    ensures
        key_error(text) is None <==> text.len() == 64 && forall|i: int|
            0 <= i < text.len() ==> hex::digit_value(#[trigger] text[i]) is Some,
        key_error(text) == Some(KeyError::WrongLength) <==> vstd::utf8::encode_utf8(text).len()
            != 64,
        KeyError::WrongLength.words() == "A public key is 64 hexadecimal digits long"@,
        KeyError::NotHexadecimal.words() == "A public key consists of hexadecimal digits only"@,
{
    if hex::is_hex(text) {
        assert(vstd::utf8::is_ascii_chars(text));
        vstd::utf8::is_ascii_chars_encode_utf8(text);
    }
}

} // verus!
