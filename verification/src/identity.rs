use vstd::prelude::*;
use vstd::utf8::encode_utf8;

verus! {

/// Largest number of UTF-8 bytes in a d20 identity.
pub const MAX_D20_ID_BYTES: usize = 64;

/// A byte that may appear in a d20 identity: `[a-z0-9._-]`.
pub open spec fn d20_id_byte(byte: u8) -> bool {
    ||| (97 <= byte && byte <= 122)
    ||| (48 <= byte && byte <= 57)
    ||| byte == 46
    ||| byte == 95
    ||| byte == 45
}

/// The UTF-8 bytes of a well-formed d20 identity: nonempty, at most
/// `MAX_D20_ID_BYTES`, and made only of identity bytes.
pub open spec fn valid_d20_id_bytes(bytes: Seq<u8>) -> bool {
    &&& bytes.len() > 0
    &&& bytes.len() <= MAX_D20_ID_BYTES
    &&& forall|i: int| 0 <= i < bytes.len() ==> #[trigger] d20_id_byte(bytes[i])
}

/// A validated identity of an authored d20 definition (`^[a-z0-9._-]+$`,
/// at most 64 bytes).
#[derive(Debug, PartialEq, Eq, PartialOrd, Ord, Hash)]
pub struct D20Id(String);

/// Why a candidate identity was refused.
#[derive(Debug, Clone, PartialEq, Eq)]
pub enum D20IdentityError {
    Empty,
    TooLong { actual: usize, maximum: usize },
    InvalidCharacter { value: String },
}

/// The mathematical value of an identity refusal.
pub enum D20IdentityErrorView {
    Empty,
    TooLong { actual: nat, maximum: nat },
    InvalidCharacter { value: Seq<char> },
}

impl View for D20IdentityError {
    type V = D20IdentityErrorView;

    open spec fn view(&self) -> D20IdentityErrorView {
        match self {
            D20IdentityError::Empty => D20IdentityErrorView::Empty,
            D20IdentityError::TooLong { actual, maximum } => D20IdentityErrorView::TooLong {
                actual: *actual as nat,
                maximum: *maximum as nat,
            },
            D20IdentityError::InvalidCharacter { value } => D20IdentityErrorView::InvalidCharacter {
                value: value@,
            },
        }
    }
}

/// Why `text` is refused as an identity, if it is: checked in order for
/// emptiness, byte length, then the byte alphabet.
pub open spec fn id_parse_error(text: Seq<char>) -> Option<D20IdentityErrorView> {
    if text.len() == 0 {
        Some(D20IdentityErrorView::Empty)
    } else if encode_utf8(text).len() > MAX_D20_ID_BYTES {
        Some(
            D20IdentityErrorView::TooLong {
                actual: encode_utf8(text).len(),
                maximum: MAX_D20_ID_BYTES as nat,
            },
        )
    } else if !valid_d20_id_bytes(encode_utf8(text)) {
        Some(D20IdentityErrorView::InvalidCharacter { value: text })
    } else {
        None
    }
}

impl View for D20Id {
    type V = Seq<char>;

    closed spec fn view(&self) -> Seq<char> {
        self.0@
    }
}

impl D20Id {
    #[verifier::type_invariant]
    spec fn well_formed(self) -> bool {
        valid_d20_id_bytes(encode_utf8(self.0@))
    }

    /// Admits `value` as an identity. The checks run in order: emptiness,
    /// byte length, then the byte alphabet; the first failing check is the
    /// reported error.
    pub fn parse(value: String) -> (result: Result<D20Id, D20IdentityError>)
        ensures
            value@.len() == 0 ==> result == Err::<D20Id, D20IdentityError>(D20IdentityError::Empty),
            value@.len() != 0 && encode_utf8(value@).len() > MAX_D20_ID_BYTES ==> result == Err::<
                D20Id,
                D20IdentityError,
            >(
                D20IdentityError::TooLong {
                    actual: encode_utf8(value@).len() as usize,
                    maximum: MAX_D20_ID_BYTES,
                },
            ),
            value@.len() != 0 && encode_utf8(value@).len() <= MAX_D20_ID_BYTES && !valid_d20_id_bytes(
                encode_utf8(value@),
            ) ==> result == Err::<D20Id, D20IdentityError>(
                D20IdentityError::InvalidCharacter { value },
            ),
            value@.len() != 0 && valid_d20_id_bytes(encode_utf8(value@)) ==> (result matches Ok(
                id,
            ) && id@ == value@),
            result matches Ok(id) ==> id@ == value@ && valid_d20_id_bytes(encode_utf8(value@)),
            result is Ok <==> id_parse_error(value@) is None,
            result matches Err(e) ==> id_parse_error(value@) == Some(e@),
    {
        if value.as_str().is_empty() {
            return Err(D20IdentityError::Empty);
        }
        let bytes = value.as_str().as_bytes();
        let length = bytes.len();
        if length > MAX_D20_ID_BYTES {
            return Err(D20IdentityError::TooLong { actual: length, maximum: MAX_D20_ID_BYTES });
        }
        let mut index: usize = 0;
        while index < bytes.len()
            invariant
                0 <= index <= bytes@.len(),
                bytes@ == encode_utf8(value@),
                value@.len() != 0,
                bytes@.len() <= MAX_D20_ID_BYTES,
                forall|i: int| 0 <= i < index ==> #[trigger] d20_id_byte(bytes@[i]),
            decreases bytes@.len() - index,
        {
            let byte = bytes[index];
            let allowed = (97u8 <= byte && byte <= 122u8) || (48u8 <= byte && byte <= 57u8)
                || byte == 46u8 || byte == 95u8 || byte == 45u8;
            if !allowed {
                assert(!d20_id_byte(bytes@[index as int]));
                return Err(D20IdentityError::InvalidCharacter { value });
            }
            index = index + 1;
        }
        Ok(D20Id(value))
    }

    /// The identity text.
    pub fn as_str(&self) -> (text: &str)
        ensures
            text@ == self@,
            valid_d20_id_bytes(encode_utf8(self@)),
    {
        proof {
            use_type_invariant(self);
        }
        self.0.as_str()
    }

    /// A second handle on the same identity.
    pub fn duplicate(&self) -> (copy: D20Id)
        ensures
            copy@ == self@,
    {
        proof {
            use_type_invariant(self);
        }
        D20Id(self.0.clone())
    }

    /// Whether the identity spells `text`.
    pub fn matches_text(&self, text: &String) -> (same: bool)
        ensures
            same == (self@ == text@),
    {
        self.0 == *text
    }

    /// Whether two identities spell the same text.
    pub fn same_as(&self, other: &D20Id) -> (same: bool)
        ensures
            same == (self@ == other@),
    {
        self.0 == other.0
    }
}

} // verus!
