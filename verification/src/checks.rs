//! Argument checks made before any work is done, and how an error is
//! reported to C code.
use vstd::prelude::*;

verus! {

/// An argument that C code passed was unusable.
#[derive(Debug, Clone, Copy, PartialEq, Eq, Structural)]
pub enum ArgumentError {
    /// A pointer that the operation needs was null.
    NullPointer,
}

/// Whether any of the pointers, given by their nullness, is null.
pub open spec fn any_null(nulls: Seq<bool>) -> bool {
    exists|i: int| 0 <= i < nulls.len() && nulls[i]
}

/// Checks that none of the pointers that an operation needs is null, each
/// given by whether it is null. The operation fails with `NullPointer` as
/// soon as one of them is.
pub fn require_non_null(nulls: &[bool]) -> (r: Result<(), ArgumentError>)
    ensures
        r == (if any_null(nulls@) {
            Err::<(), ArgumentError>(ArgumentError::NullPointer)
        } else {
            Ok::<(), ArgumentError>(())
        }),
{
    let mut i: usize = 0;
    while i < nulls.len()
        invariant
            i <= nulls.len(),
            forall|j: int| 0 <= j < i ==> !nulls@[j],
        decreases nulls.len() - i,
    {
        if nulls[i] {
            return Err(ArgumentError::NullPointer);
        }
        i = i + 1;
    }
    Ok(())
}

/// The kinds of error that an error handle can hold, as C code tells them
/// apart.
#[derive(Debug, Clone, Copy, PartialEq, Eq, Structural)]
pub enum ErrorKind {
    UnknownError,
    InternalError,
    NullParameter,
    InvalidUtf8String,
    UnexpectedPanic,
    ProtocolError,
}

/// The code of each kind of error. Zero is kept for "no error".
pub open spec fn error_kind_code(kind: ErrorKind) -> u32 {
    match kind {
        ErrorKind::UnknownError => 1,
        ErrorKind::InternalError => 2,
        ErrorKind::NullParameter => 3,
        ErrorKind::InvalidUtf8String => 4,
        ErrorKind::UnexpectedPanic => 5,
        ErrorKind::ProtocolError => 6,
    }
}

/// The type code reported for an error handle: zero when there is no
/// error, else the code of the error's kind, which is never zero.
pub fn error_code(kind: Option<ErrorKind>) -> (r: u32)
    ensures
        r == (match kind {
            Some(k) => error_kind_code(k),
            None => 0u32,
        }),
        kind is Some ==> r != 0,
        kind is None ==> r == 0,
        kind == Some(ErrorKind::UnknownError) ==> r == 1,
        kind == Some(ErrorKind::InternalError) ==> r == 2,
        kind == Some(ErrorKind::NullParameter) ==> r == 3,
        kind == Some(ErrorKind::InvalidUtf8String) ==> r == 4,
        kind == Some(ErrorKind::UnexpectedPanic) ==> r == 5,
        kind == Some(ErrorKind::ProtocolError) ==> r == 6,
{
    match kind {
        None => 0,
        Some(ErrorKind::UnknownError) => 1,
        Some(ErrorKind::InternalError) => 2,
        Some(ErrorKind::NullParameter) => 3,
        Some(ErrorKind::InvalidUtf8String) => 4,
        Some(ErrorKind::UnexpectedPanic) => 5,
        Some(ErrorKind::ProtocolError) => 6,
    }
}

/// Different kinds of error get different codes, and none of them gets the
/// code that means "no error".
pub proof fn error_codes_distinct(a: ErrorKind, b: ErrorKind)
    ensures
        error_kind_code(a) != 0,
        error_kind_code(a) == error_kind_code(b) ==> a == b,
{
}

/// How a buffer that C code passed as a pointer and a length is to be read.
#[derive(Debug, Clone, Copy, PartialEq, Eq, Structural)]
pub enum BufferAccess {
    /// The pointer is null and the length zero: the buffer is empty.
    Empty,
    /// The pointer is not null: the buffer is the memory it points to.
    Memory,
}

/// Decides how a buffer given by its pointer's nullness and its length is
/// read: a null pointer is accepted only for an empty buffer.
pub fn buffer_access(is_null: bool, len: usize) -> (r: Result<BufferAccess, ArgumentError>)
    ensures
        r == (if !is_null {
            Ok::<BufferAccess, ArgumentError>(BufferAccess::Memory)
        } else if len == 0 {
            Ok::<BufferAccess, ArgumentError>(BufferAccess::Empty)
        } else {
            Err::<BufferAccess, ArgumentError>(ArgumentError::NullPointer)
        }),
{
    if !is_null {
        Ok(BufferAccess::Memory)
    } else if len == 0 {
        Ok(BufferAccess::Empty)
    } else {
        Err(ArgumentError::NullPointer)
    }
}

/// The integer written for an optional id: the id itself, or `u32::MAX`
/// when there is none.
pub fn optional_id_code(id: Option<u32>) -> (r: u32)
    ensures
        r == (match id {
            Some(v) => v,
            None => u32::MAX,
        }),
{
    match id {
        Some(v) => v,
        None => u32::MAX,
    }
}

/// What a signature check writes to its result flag and what it returns,
/// given how the verification itself ended. The flag is cleared before any
/// other work, so it is only ever set when the verification ran and
/// accepted the signature.
pub fn signature_check_result<E>(verified: Result<bool, E>) -> (r: (bool, Result<(), E>))
    ensures
        match verified {
            Ok(b) => r.0 == b && r.1 == Ok::<(), E>(()),
            Err(e) => !r.0 && r.1 == Err::<(), E>(e),
        },
{
    let mut flag = false;
    match verified {
        Ok(b) => {
            flag = b;
            (flag, Ok(()))
        },
        Err(e) => (flag, Err(e)),
    }
}

} // verus!
