//! An owning pointer whose referent the erased container can hold.

use vstd::prelude::*;
use crate::erased::{ErasedFmtWrite, ErasedIterator, FmtError};
use crate::stream::{ErasedBufRead, ErasedIoRead, ErasedIoWrite, ErasedSeek, IoError, SeekFrom};

verus! {

/// An owning pointer to a heap value.
pub struct RBox<T> {
    value: Box<T>,
}

impl<T> View for RBox<T> {
    type V = T;

    closed spec fn view(&self) -> T {
        *self.value
    }
}

impl<T> RBox<T> {
    /// The box holding `value`.
    pub closed spec fn spec_new(value: T) -> Self {
        RBox { value: Box::new(value) }
    }

    /// Two boxes are equal exactly when the values they hold are.
    pub proof fn lemma_view_injective(a: Self, b: Self)
        ensures
            a == b <==> a@ == b@,
    {
    }

    /// Moves `value` to the heap.
    pub fn new(value: T) -> (r: Self)
        ensures
            r@ == value,
            r == Self::spec_new(value),
    {
        RBox { value: Box::new(value) }
    }

    /// Takes over the allocation of a `Box`.
    pub fn from_box(p: Box<T>) -> (r: Self)
        ensures
            r@ == *p,
    {
        RBox { value: p }
    }

    /// Gives the allocation back as a `Box`.
    pub fn into_box(this: Self) -> (r: Box<T>)
        ensures
            *r == this@,
    {
        this.value
    }

    /// Moves the value out of the heap.
    pub fn into_inner(this: Self) -> (r: T)
        ensures
            r == this@,
    {
        *this.value
    }

    /// The value pointed to.
    pub fn as_ref(&self) -> (r: &T)
        ensures
            *r == self@,
    {
        &self.value
    }
}

impl<I: ErasedIterator> ErasedIterator for RBox<I> {
    type Item = I::Item;

    open spec fn remaining(&self) -> Seq<I::Item> {
        self@.remaining()
    }

    fn erased_next(&mut self) -> (r: Option<I::Item>) {
        self.value.erased_next()
    }

    fn erased_next_back(&mut self) -> (r: Option<I::Item>) {
        self.value.erased_next_back()
    }

    fn erased_len(&self) -> (r: usize) {
        self.value.erased_len()
    }
}

impl<W: ErasedFmtWrite> ErasedFmtWrite for RBox<W> {
    open spec fn written(&self) -> Seq<char> {
        self@.written()
    }

    open spec fn never_fails(&self) -> bool {
        self@.never_fails()
    }

    fn erased_write_str(&mut self, s: &str) -> (r: Result<(), FmtError>) {
        self.value.erased_write_str(s)
    }
}

impl<W: ErasedIoWrite> ErasedIoWrite for RBox<W> {
    open spec fn sink(&self) -> Seq<u8> {
        self@.sink()
    }

    open spec fn never_fails(&self) -> bool {
        self@.never_fails()
    }

    fn erased_write(&mut self, buf: &[u8]) -> (r: Result<usize, IoError>) {
        self.value.erased_write(buf)
    }

    fn erased_flush(&mut self) -> (r: Result<(), IoError>) {
        self.value.erased_flush()
    }

    fn erased_write_all(&mut self, buf: &[u8]) -> (r: Result<(), IoError>) {
        self.value.erased_write_all(buf)
    }
}

impl<R: ErasedIoRead> ErasedIoRead for RBox<R> {
    open spec fn unread(&self) -> Seq<u8> {
        self@.unread()
    }

    fn erased_read(&mut self, buf: &mut [u8]) -> (r: Result<usize, IoError>) {
        self.value.erased_read(buf)
    }

    fn erased_read_exact(&mut self, buf: &mut [u8]) -> (r: Result<(), IoError>) {
        self.value.erased_read_exact(buf)
    }
}

impl<R: ErasedBufRead> ErasedBufRead for RBox<R> {
    fn erased_fill_buf(&mut self) -> (r: Result<&[u8], IoError>) {
        self.value.erased_fill_buf()
    }

    fn erased_consume(&mut self, amount: usize) {
        self.value.erased_consume(amount)
    }
}

impl<S: ErasedSeek> ErasedSeek for RBox<S> {
    open spec fn position(&self) -> u64 {
        self@.position()
    }

    open spec fn end(&self) -> nat {
        self@.end()
    }

    fn erased_seek(&mut self, pos: SeekFrom) -> (r: Result<u64, IoError>) {
        self.value.erased_seek(pos)
    }
}

} // verus!
