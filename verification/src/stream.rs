//! The capability the client needs of its connection to the mount: to write a
//! run of bytes whole, and to read bytes back.

use vstd::prelude::*;

verus! {

/// A duplex stream of bytes.
///
/// Nothing is assumed of an implementation: the client takes whatever a call
/// hands back, and answers for every outcome.
pub trait Stream {
    /// Writes all of `bytes`, or fails.
    fn write_all(&mut self, bytes: &[u8]) -> Result<(), std::io::Error>;

    /// Reads exactly `len` bytes, waiting for them as long as it takes, or
    /// fails.
    fn read_exact(&mut self, len: usize) -> Result<Vec<u8>, std::io::Error>;

    /// Reads the bytes that are there, at most `max` of them and possibly
    /// none, or fails.
    fn read(&mut self, max: usize) -> Result<Vec<u8>, std::io::Error>;
}

/// A stream behind a pointer is the stream inside: each call makes one call
/// of the same method on it, with the same argument. The contracts say so by
/// `call_ensures`: the result, and the state in which the stream inside is
/// left, are such as that call of its method can give.
impl<S: Stream + ?Sized> Stream for Box<S> {
    fn write_all(&mut self, bytes: &[u8]) -> (r: Result<(), std::io::Error>)
        ensures
            exists|inner: &mut S|
                &*inner == &**old(self) && &*final(inner) == &**final(self) && call_ensures(
                    S::write_all,
                    (inner, bytes),
                    r,
                ),
    {
        let inner: &mut S = &mut **self;
        inner.write_all(bytes)
    }

    fn read_exact(&mut self, len: usize) -> (r: Result<Vec<u8>, std::io::Error>)
        ensures
            exists|inner: &mut S|
                &*inner == &**old(self) && &*final(inner) == &**final(self) && call_ensures(
                    S::read_exact,
                    (inner, len),
                    r,
                ),
    {
        let inner: &mut S = &mut **self;
        inner.read_exact(len)
    }

    fn read(&mut self, max: usize) -> (r: Result<Vec<u8>, std::io::Error>)
        ensures
            exists|inner: &mut S|
                &*inner == &**old(self) && &*final(inner) == &**final(self) && call_ensures(
                    S::read,
                    (inner, max),
                    r,
                ),
    {
        let inner: &mut S = &mut **self;
        inner.read(max)
    }
}

} // verus!
