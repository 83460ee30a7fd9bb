//! Runtime errors of the crate.
use vstd::prelude::*;
use vstd::string::*;
use vstd::utf8::encode_utf8;

verus! {

/// An error indicating failure in setting up required `libpostal` resources.
#[derive(Debug, Clone, Copy, PartialEq, Eq, Structural)]
pub struct SetupError;

impl SetupError {
    /// The text shown to a user for this error.
    pub fn to_string(&self) -> (text: String)
        ensures
            text@ == "setup of libpostal resources failed"@,
    {
        "setup of libpostal resources failed".to_owned()
    }
}

/// An error indicating that a text holds a zero byte, which no
/// null-terminated string can carry.
///
/// It keeps the bytes of the rejected text and the index of their first
/// zero byte.
#[derive(Debug, PartialEq, Eq)]
pub struct NulError {
    position: usize,
    bytes: Vec<u8>,
}

/// Whether `position` is the index of the first zero byte of `bytes`.
pub open spec fn is_first_nul(bytes: Seq<u8>, position: int) -> bool {
    &&& 0 <= position < bytes.len()
    &&& bytes[position] == 0u8
    &&& forall|j: int| 0 <= j < position ==> bytes[j] != 0u8
}

/// Whether the UTF-8 encoding of `text` holds a zero byte.
pub open spec fn has_nul(text: Seq<char>) -> bool {
    encode_utf8(text).contains(0u8)
}

impl NulError {
    #[verifier::type_invariant]
    spec fn well_formed(&self) -> bool {
        is_first_nul(self.bytes@, self.position as int)
    }

    /// The index of the first zero byte.
    pub closed spec fn position(&self) -> int {
        self.position as int
    }

    /// The bytes of the rejected text.
    pub closed spec fn bytes(&self) -> Seq<u8> {
        self.bytes@
    }

    /// Whether this error is the one that rejects `text`.
    pub open spec fn rejects(&self, text: Seq<char>) -> bool {
        &&& self.bytes() == encode_utf8(text)
        &&& is_first_nul(self.bytes(), self.position())
    }

    /// Scans `text` for a zero byte: `None` where it holds none, else the
    /// error that names the first one.
    pub fn find(text: &str) -> (found: Option<NulError>)
        ensures
            found is None <==> !has_nul(text@),
            found matches Some(e) ==> e.rejects(text@),
    {
        let bytes = text.as_bytes();
        let mut i: usize = 0;
        while i < bytes.len()
            invariant
                i <= bytes.len(),
                bytes@ == encode_utf8(text@),
                forall|j: int| 0 <= j < i ==> bytes@[j] != 0u8,
            decreases bytes.len() - i,
        {
            if bytes[i] == 0 {
                let copy = text.as_bytes_vec();
                return Some(NulError { position: i, bytes: copy });
            }
            i += 1;
        }
        None
    }

    /// Returns the position of the zero byte that caused the rejection.
    pub fn nul_position(&self) -> (position: usize)
        ensures
            position == self.position(),
            is_first_nul(self.bytes(), position as int),
    {
        proof {
            use_type_invariant(self);
        }
        self.position
    }

    /// Consumes this error, returning the bytes of the rejected text.
    pub fn into_vec(self) -> (bytes: Vec<u8>)
        ensures
            bytes@ == self.bytes(),
    {
        self.bytes
    }
}

impl Clone for NulError {
    fn clone(&self) -> (copy: NulError)
        ensures
            copy.position() == self.position(),
            copy.bytes() == self.bytes(),
    {
        proof {
            use_type_invariant(self);
        }
        let bytes = self.bytes.clone();
        assert(bytes@ =~= self.bytes@);
        NulError { position: self.position, bytes }
    }
}

/// Error indicating possible runtime failures.
#[derive(Debug, Clone, PartialEq, Eq)]
pub enum RuntimeError {
    FailedSetup(SetupError),
    InvalidAddress(NulError),
}

impl RuntimeError {
    /// The text shown to a user for this error.
    pub fn to_string(&self) -> (text: String)
        ensures
            self is FailedSetup ==> text@ == "setup of libpostal resources failed"@,
            self is InvalidAddress ==> text@
                == "input address possibly contains internal null byte"@,
    {
        match self {
            RuntimeError::FailedSetup(err) => err.to_string(),
            RuntimeError::InvalidAddress(_) => {
                "input address possibly contains internal null byte".to_owned()
            },
        }
    }
}

impl From<SetupError> for RuntimeError {
    /// Create a new [`RuntimeError`] consuming a [`SetupError`].
    fn from(err: SetupError) -> (converted: RuntimeError) {
        RuntimeError::FailedSetup(err)
    }
}

impl vstd::std_specs::convert::FromSpecImpl<SetupError> for RuntimeError {
    open spec fn obeys_from_spec() -> bool {
        true
    }

    open spec fn from_spec(err: SetupError) -> RuntimeError {
        RuntimeError::FailedSetup(err)
    }
}

impl From<NulError> for RuntimeError {
    /// Create a new [`RuntimeError`] consuming a [`NulError`].
    fn from(err: NulError) -> (converted: RuntimeError) {
        RuntimeError::InvalidAddress(err)
    }
}

impl vstd::std_specs::convert::FromSpecImpl<NulError> for RuntimeError {
    open spec fn obeys_from_spec() -> bool {
        true
    }

    open spec fn from_spec(err: NulError) -> RuntimeError {
        RuntimeError::InvalidAddress(err)
    }
}

} // verus!
