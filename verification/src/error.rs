//! The one error type of the library: what can go wrong while decoding a
//! reply, while the mount answers a command, or on the stream itself.

use crate::formats::Field;
use vstd::prelude::*;

verus! {

/// An I/O error of the standard library, carried through unread.
#[verifier::external_type_specification]
#[verifier::external_body]
pub struct ExIoError(std::io::Error);

/// Why a run of bytes is not what the protocol's grammar asks for.
#[derive(Clone, Copy, Debug, PartialEq, Eq, Structural)]
pub enum Malformed {
    /// The input ended before the token did; `needed` more bytes were asked
    /// for.
    Incomplete { needed: usize },
    /// The bytes of a numeric field are not a decimal numeral.
    Numeral(Field),
    /// A literal byte of the grammar was expected and another one found.
    Literal { expected: u8, found: u8 },
    /// The byte names no member of a one-byte enumeration.
    Unrecognized(u8),
}

/// Every way an operation of this library can fail.
///
/// `inspected` counts the bytes of the input that were looked at, from its
/// first byte up to and including the token that failed.
#[derive(Debug)]
pub enum Error {
    /// The bytes do not follow the grammar.
    Format { cause: Malformed, inspected: usize },
    /// A field is a well-formed numeral, but its value lies outside the
    /// field's range.
    Boundary { field: Field, inspected: usize },
    /// The mount answered a set command with the rejecting byte.
    Status,
    /// The stream failed.
    IO(std::io::Error),
}

/// The acknowledgment byte by which the mount rejects a set command.
pub const REJECTED: u8 = 0;

impl Error {
    /// The error for an input that ends `needed` bytes short of a token, all
    /// `len` of its bytes having been looked at.
    pub open spec fn incomplete(len: nat, needed: nat) -> Error {
        Error::Format {
            cause: Malformed::Incomplete { needed: needed as usize },
            inspected: len as usize,
        }
    }

    /// What the one-byte answer to a set command means: rejected if it is
    /// [`REJECTED`], accepted if it is any other byte.
    pub open spec fn acknowledgment(input: Seq<u8>) -> Result<(), Error> {
        if input.len() == 0 {
            Err(Error::incomplete(0, 1))
        } else if input[0] == REJECTED {
            Err(Error::Status)
        } else {
            Ok(())
        }
    }

    /// Whether the operation that gave `r` broke off because the stream
    /// failed.
    pub open spec fn stream_failed<V>(r: Result<V, Error>) -> bool {
        r matches Err(e) && e is IO
    }

    /// Reads the acknowledgment of a set command from the front of `input`.
    pub fn parse(input: &[u8]) -> (r: Result<(), Error>)
        ensures
            r == Error::acknowledgment(input@),
    {
        if input.len() == 0 {
            return Err(
                Error::Format { cause: Malformed::Incomplete { needed: 1 }, inspected: 0 },
            );
        }
        if input[0] == REJECTED {
            return Err(Error::Status);
        }
        Ok(())
    }
}

} // verus!
