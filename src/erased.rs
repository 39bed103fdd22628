//! The operations that a dispatch table forwards to the erased value, one
//! trait per capability, with the values of this crate that provide them.

use vstd::prelude::*;
use vstd::string::StringExecFns;
use core::cmp::Ordering;
use crate::boxed::RBox;

verus! {

/// The error of a formatted write that the destination refused.
#[derive(Clone, Copy, Debug, PartialEq, Eq, Structural)]
pub struct FmtError;

/// Equality of erased values.
pub trait ErasedEq {
    spec fn spec_eq(&self, other: &Self) -> bool;

    fn erased_eq(&self, other: &Self) -> (r: bool)
        ensures
            r == self.spec_eq(other),
    ;
}

/// Total ordering of erased values.
pub trait ErasedOrd {
    spec fn spec_cmp(&self, other: &Self) -> Ordering;

    fn erased_cmp(&self, other: &Self) -> (r: Ordering)
        ensures
            r == self.spec_cmp(other),
    ;
}

/// Partial ordering of erased values.
pub trait ErasedPartialOrd {
    spec fn spec_partial_cmp(&self, other: &Self) -> Option<Ordering>;

    fn erased_partial_cmp(&self, other: &Self) -> (r: Option<Ordering>)
        ensures
            r == self.spec_partial_cmp(other),
    ;
}

/// A pointer through which an erased value is reached: an owning box, or a
/// shared or mutable reference.
pub trait ErasedPointer {
    type Target;

    /// The value pointed to.
    spec fn pointee(&self) -> Self::Target;

    fn pointee_ref(&self) -> (r: &Self::Target)
        ensures
            *r == self.pointee(),
    ;
}

/// Duplication of erased values: a smart pointer duplicates its referent, a
/// reference is copied.
pub trait ErasedClone: Sized {
    fn erased_clone(&self) -> (r: Self)
        ensures
            r == *self,
    ;
}

/// Construction of a default erased value.
pub trait ErasedDefault: Sized {
    spec fn spec_default() -> Self;

    fn erased_default() -> (r: Self)
        ensures
            r == Self::spec_default(),
    ;
}

/// Rendering of erased values as text.
pub trait ErasedDisplay {
    /// The text that renders the value.
    spec fn shown(&self) -> Seq<char>;

    fn erased_display(&self) -> (r: String)
        ensures
            r@ == self.shown(),
    ;
}

/// Rendering of erased values as text for debugging.
pub trait ErasedDebug {
    /// The debugging text of the value.
    spec fn debug_shown(&self) -> Seq<char>;

    fn erased_debug(&self) -> (r: String)
        ensures
            r@ == self.debug_shown(),
    ;
}

/// Hashing of erased values: the bytes a value feeds to a hasher.
pub trait ErasedHash {
    /// The bytes the value feeds to a hasher.
    spec fn hash_bytes(&self) -> Seq<u8>;

    fn erased_hash(&self, state: &mut Vec<u8>)
        ensures
            final(state)@ == old(state)@ + self.hash_bytes(),
    ;
}

/// The text of a decimal digit.
pub open spec fn digit_text(d: nat) -> Seq<char> {
    if d == 0 {
        "0"@
    } else if d == 1 {
        "1"@
    } else if d == 2 {
        "2"@
    } else if d == 3 {
        "3"@
    } else if d == 4 {
        "4"@
    } else if d == 5 {
        "5"@
    } else if d == 6 {
        "6"@
    } else if d == 7 {
        "7"@
    } else if d == 8 {
        "8"@
    } else {
        "9"@
    }
}

/// The decimal text of `n`, without leading zeros.
pub open spec fn decimal(n: nat) -> Seq<char>
    decreases n,
{
    if n < 10 {
        digit_text(n)
    } else {
        decimal(n / 10) + digit_text(n % 10)
    }
}

/// Appends the decimal text of `n` to `out`.
pub fn push_decimal(n: u64, out: &mut String)
    ensures
        final(out)@ == old(out)@ + decimal(n as nat),
    decreases n,
{
    if n >= 10 {
        push_decimal(n / 10, out);
    }
    let d = n % 10;
    let text = if d == 0 {
        "0"
    } else if d == 1 {
        "1"
    } else if d == 2 {
        "2"
    } else if d == 3 {
        "3"
    } else if d == 4 {
        "4"
    } else if d == 5 {
        "5"
    } else if d == 6 {
        "6"
    } else if d == 7 {
        "7"
    } else if d == 8 {
        "8"
    } else {
        "9"
    };
    out.append(text);
    proof {
        if n < 10 {
            assert(old(out)@ + decimal(n as nat) == old(out)@ + digit_text(n as nat));
        } else {
            assert(old(out)@ + decimal(n as nat) =~= old(out)@ + decimal((n / 10) as nat) + digit_text(
                (n % 10) as nat,
            ));
        }
    }
}

/// The little-endian bytes of `n`.
pub open spec fn le_bytes(n: u64) -> Seq<u8> {
    seq![
        n as u8,
        (n >> 8u64) as u8,
        (n >> 16u64) as u8,
        (n >> 24u64) as u8,
        (n >> 32u64) as u8,
        (n >> 40u64) as u8,
        (n >> 48u64) as u8,
        (n >> 56u64) as u8,
    ]
}

/// Iteration, from the front and from the back, over a finite sequence of
/// items.
pub trait ErasedIterator {
    type Item;

    /// The items not yet yielded, front first.
    spec fn remaining(&self) -> Seq<Self::Item>;

    fn erased_next(&mut self) -> (r: Option<Self::Item>)
        ensures
            old(self).remaining().len() == 0 ==> r is None && final(self).remaining() == old(
                self,
            ).remaining(),
            old(self).remaining().len() > 0 ==> r == Some(old(self).remaining()[0])
                && final(self).remaining() == old(self).remaining().drop_first(),
    ;

    fn erased_next_back(&mut self) -> (r: Option<Self::Item>)
        ensures
            old(self).remaining().len() == 0 ==> r is None && final(self).remaining() == old(
                self,
            ).remaining(),
            old(self).remaining().len() > 0 ==> r == Some(old(self).remaining().last())
                && final(self).remaining() == old(self).remaining().drop_last(),
    ;

    fn erased_len(&self) -> (r: usize)
        ensures
            r == self.remaining().len(),
    ;
}

/// Formatted writes of text.
pub trait ErasedFmtWrite {
    /// The text written so far.
    spec fn written(&self) -> Seq<char>;

    /// Writes to this destination always succeed.
    spec fn never_fails(&self) -> bool;

    fn erased_write_str(&mut self, s: &str) -> (r: Result<(), FmtError>)
        ensures
            r is Ok ==> final(self).written() == old(self).written() + s@,
            r is Err ==> final(self).written() == old(self).written(),
            old(self).never_fails() ==> r is Ok,
            final(self).never_fails() == old(self).never_fails(),
    ;
}

impl ErasedEq for u64 {
    open spec fn spec_eq(&self, other: &Self) -> bool {
        *self == *other
    }

    fn erased_eq(&self, other: &Self) -> (r: bool) {
        *self == *other
    }
}

impl ErasedOrd for u64 {
    open spec fn spec_cmp(&self, other: &Self) -> Ordering {
        if *self < *other {
            Ordering::Less
        } else if *self == *other {
            Ordering::Equal
        } else {
            Ordering::Greater
        }
    }

    fn erased_cmp(&self, other: &Self) -> (r: Ordering) {
        if *self < *other {
            Ordering::Less
        } else if *self == *other {
            Ordering::Equal
        } else {
            Ordering::Greater
        }
    }
}

impl ErasedClone for u64 {
    fn erased_clone(&self) -> (r: Self) {
        *self
    }
}

impl ErasedDefault for u64 {
    open spec fn spec_default() -> Self {
        0
    }

    fn erased_default() -> (r: Self) {
        0
    }
}

impl<T: ErasedClone> ErasedClone for RBox<T> {
    fn erased_clone(&self) -> (r: Self) {
        let r = RBox::new(self.as_ref().erased_clone());
        proof {
            RBox::lemma_view_injective(r, *self);
        }
        r
    }
}

impl<T: ErasedDefault> ErasedDefault for RBox<T> {
    open spec fn spec_default() -> Self {
        RBox::spec_new(T::spec_default())
    }

    fn erased_default() -> (r: Self) {
        RBox::new(T::erased_default())
    }
}

impl<'a, T> ErasedClone for &'a T {
    fn erased_clone(&self) -> (r: Self) {
        *self
    }
}

impl ErasedPartialOrd for u64 {
    open spec fn spec_partial_cmp(&self, other: &Self) -> Option<Ordering> {
        Some(self.spec_cmp(other))
    }

    fn erased_partial_cmp(&self, other: &Self) -> (r: Option<Ordering>) {
        Some(self.erased_cmp(other))
    }
}

impl ErasedDisplay for u64 {
    open spec fn shown(&self) -> Seq<char> {
        decimal(*self as nat)
    }

    fn erased_display(&self) -> (r: String) {
        let mut out = String::new();
        push_decimal(*self, &mut out);
        assert(out@ =~= decimal(*self as nat));
        out
    }
}

impl ErasedDebug for u64 {
    open spec fn debug_shown(&self) -> Seq<char> {
        decimal(*self as nat)
    }

    fn erased_debug(&self) -> (r: String) {
        self.erased_display()
    }
}

impl ErasedHash for u64 {
    open spec fn hash_bytes(&self) -> Seq<u8> {
        le_bytes(*self)
    }

    fn erased_hash(&self, state: &mut Vec<u8>) {
        let n = *self;
        let ghost start = state@;
        state.push(n as u8);
        state.push((n >> 8u64) as u8);
        state.push((n >> 16u64) as u8);
        state.push((n >> 24u64) as u8);
        state.push((n >> 32u64) as u8);
        state.push((n >> 40u64) as u8);
        state.push((n >> 48u64) as u8);
        state.push((n >> 56u64) as u8);
        assert(state@ =~= start + le_bytes(n));
    }
}

impl<T: ErasedDebug> ErasedDebug for RBox<T> {
    open spec fn debug_shown(&self) -> Seq<char> {
        self@.debug_shown()
    }

    fn erased_debug(&self) -> (r: String) {
        self.as_ref().erased_debug()
    }
}

impl<T: ErasedHash> ErasedHash for RBox<T> {
    open spec fn hash_bytes(&self) -> Seq<u8> {
        self@.hash_bytes()
    }

    fn erased_hash(&self, state: &mut Vec<u8>) {
        self.as_ref().erased_hash(state)
    }
}

impl<'a, T: ErasedDebug> ErasedDebug for &'a T {
    open spec fn debug_shown(&self) -> Seq<char> {
        (**self).debug_shown()
    }

    fn erased_debug(&self) -> (r: String) {
        (**self).erased_debug()
    }
}

impl<'a, T: ErasedHash> ErasedHash for &'a T {
    open spec fn hash_bytes(&self) -> Seq<u8> {
        (**self).hash_bytes()
    }

    fn erased_hash(&self, state: &mut Vec<u8>) {
        (**self).erased_hash(state)
    }
}

impl<T> ErasedPointer for RBox<T> {
    type Target = T;

    open spec fn pointee(&self) -> T {
        self@
    }

    fn pointee_ref(&self) -> (r: &T) {
        self.as_ref()
    }
}

impl<'a, T> ErasedPointer for &'a T {
    type Target = T;

    open spec fn pointee(&self) -> T {
        **self
    }

    fn pointee_ref(&self) -> (r: &T) {
        *self
    }
}

impl<'a, T> ErasedPointer for &'a mut T {
    type Target = T;

    open spec fn pointee(&self) -> T {
        **self
    }

    fn pointee_ref(&self) -> (r: &T) {
        &**self
    }
}

impl ErasedFmtWrite for String {
    open spec fn written(&self) -> Seq<char> {
        self@
    }

    open spec fn never_fails(&self) -> bool {
        true
    }

    fn erased_write_str(&mut self, s: &str) -> (r: Result<(), FmtError>) {
        self.append(s);
        Ok(())
    }
}

impl ErasedDisplay for String {
    open spec fn shown(&self) -> Seq<char> {
        self@
    }

    fn erased_display(&self) -> (r: String) {
        self.clone()
    }
}

impl<T: ErasedDisplay> ErasedDisplay for RBox<T> {
    open spec fn shown(&self) -> Seq<char> {
        self@.shown()
    }

    fn erased_display(&self) -> (r: String) {
        self.as_ref().erased_display()
    }
}

impl<'a, T: ErasedDisplay> ErasedDisplay for &'a T {
    open spec fn shown(&self) -> Seq<char> {
        (**self).shown()
    }

    fn erased_display(&self) -> (r: String) {
        (**self).erased_display()
    }
}

impl<T: ErasedEq> ErasedEq for RBox<T> {
    open spec fn spec_eq(&self, other: &Self) -> bool {
        self@.spec_eq(&other@)
    }

    fn erased_eq(&self, other: &Self) -> (r: bool) {
        self.as_ref().erased_eq(other.as_ref())
    }
}

impl<T: ErasedOrd> ErasedOrd for RBox<T> {
    open spec fn spec_cmp(&self, other: &Self) -> Ordering {
        self@.spec_cmp(&other@)
    }

    fn erased_cmp(&self, other: &Self) -> (r: Ordering) {
        self.as_ref().erased_cmp(other.as_ref())
    }
}

impl<'a, T: ErasedEq> ErasedEq for &'a T {
    open spec fn spec_eq(&self, other: &Self) -> bool {
        (**self).spec_eq(*other)
    }

    fn erased_eq(&self, other: &Self) -> (r: bool) {
        (**self).erased_eq(*other)
    }
}

impl<'a, T: ErasedOrd> ErasedOrd for &'a T {
    open spec fn spec_cmp(&self, other: &Self) -> Ordering {
        (**self).spec_cmp(*other)
    }

    fn erased_cmp(&self, other: &Self) -> (r: Ordering) {
        (**self).erased_cmp(*other)
    }
}

/// An iterator over the items of a vector, from both ends.
pub struct SeqIter<T: Copy> {
    items: Vec<T>,
    front: usize,
    back: usize,
}

impl<T: Copy> SeqIter<T> {
    #[verifier::type_invariant]
    spec fn inv(&self) -> bool {
        self.front <= self.back <= self.items@.len()
    }

    /// An iterator over all of `items`.
    pub fn new(items: Vec<T>) -> (r: Self)
        ensures
            r.remaining() == items@,
    {
        let back = items.len();
        let r = SeqIter { items, front: 0, back };
        assert(r.items@.subrange(0, back as int) == items@);
        r
    }
}

impl<T: Copy> ErasedIterator for SeqIter<T> {
    type Item = T;

    closed spec fn remaining(&self) -> Seq<T> {
        self.items@.subrange(self.front as int, self.back as int)
    }

    fn erased_next(&mut self) -> (r: Option<T>) {
        proof {
            use_type_invariant(&*self);
        }
        if self.front < self.back {
            let x = self.items[self.front];
            self.front = self.front + 1;
            assert(self.remaining() =~= old(self).remaining().drop_first());
            Some(x)
        } else {
            None
        }
    }

    fn erased_next_back(&mut self) -> (r: Option<T>) {
        proof {
            use_type_invariant(&*self);
        }
        if self.front < self.back {
            let x = self.items[self.back - 1];
            self.back = self.back - 1;
            assert(self.remaining() =~= old(self).remaining().drop_last());
            Some(x)
        } else {
            None
        }
    }

    fn erased_len(&self) -> (r: usize) {
        proof {
            use_type_invariant(self);
        }
        self.back - self.front
    }
}

} // verus!
