//! Heterogeneous typed lists and positional containment witnesses.
//!
//! A typed list is either [`Nil`] or a [`Cons`] cell holding one entry in
//! front of a smaller list.  The list's type records, in order, the type of
//! every entry it holds, so an entry of a given type can be found again by
//! type alone.  The [`ContainsAt`] capability performs that lookup: a
//! type-level position witness ([`Z`] or [`Succ`]) proves the entry is
//! reachable in a known number of steps, and resolution is structural
//! recursion on the witness, settled entirely by the type checker.

use vstd::prelude::*;

verus! {

/// Marker for heterogeneous typed lists.
pub trait HList {}

/// The empty typed list.
pub struct Nil;

impl HList for Nil {}

/// A typed list holding `head` in front of the remaining list `tail`.
pub struct Cons<T, Tail> {
    pub head: T,
    pub tail: Tail,
}

impl<T, Tail: HList> HList for Cons<T, Tail> {}

/// Prepending an entry to a typed list.
pub trait HListExt: Sized {
    /// Place `t` in front of this list, producing a list one entry longer.
    fn push<T>(self, t: T) -> (r: Cons<T, Self>)
        ensures
            r.head == t,
            r.tail == self,
    ;
}

impl<H: HList> HListExt for H {
    fn push<T>(self, t: T) -> (r: Cons<T, Self>) {
        Cons { head: t, tail: self }
    }
}

/// Marker for type-level list positions.
pub trait Index {}

/// The position of the head entry.
pub struct Z;

/// The position one step beyond the witness `T`.
pub struct Succ<T>(pub T);

impl Index for Z {}

impl<T: Index> Index for Succ<T> {}

/// A typed list that holds an entry of type `T` at position `I`.
///
/// The two spec functions give the entry at the position and the list with
/// that one entry replaced; `take` and `take_mut` are the executable reads
/// and writes, contracted against them.
pub trait ContainsAt<T, I>: Sized {
    /// The entry of type `T` found at position `I`.
    spec fn at_pos(&self) -> T;

    /// This list with the entry at position `I` replaced by `t`.
    spec fn with_at(self, t: T) -> Self;

    /// Reading back a replaced entry yields the replacement.
    proof fn at_pos_with_at(self, t: T)
        ensures
            self.with_at(t).at_pos() == t,
    ;

    /// Replacing an entry by itself leaves the list unchanged.
    proof fn with_at_at_pos(self)
        ensures
            self.with_at(self.at_pos()) == self,
    ;

    /// Borrow the entry at position `I`.
    fn take(&self) -> (r: &T)
        ensures
            *r == self.at_pos(),
    ;

    /// Mutably borrow the entry at position `I`; every other entry is kept.
    fn take_mut(&mut self) -> (r: &mut T)
        ensures
            *r == old(self).at_pos(),
            *final(self) == old(self).with_at(*final(r)),
    ;
}

/// The zero witness resolves to the head of the list.  Registration
/// prepends, so the entry a zero witness finds is the one registered last.
pub proof fn lemma_zero_witness_finds_newest<T, Tail: HList>(l: Cons<T, Tail>)
    ensures
        <Cons<T, Tail> as ContainsAt<T, Z>>::at_pos(&l) == l.head,
{
}

/// A successor witness steps past the head: the entry it resolves to is the
/// one its inner witness finds in the rest of the list.
pub proof fn lemma_successor_witness_steps_past_head<T, H, Tail: HList, I: Index>(
    l: Cons<H, Tail>,
) where Tail: ContainsAt<T, I>
    ensures
        <Cons<H, Tail> as ContainsAt<T, Succ<I>>>::at_pos(&l) == l.tail.at_pos(),
{
}

impl<T, Tail: HList> ContainsAt<T, Z> for Cons<T, Tail> {
    open spec fn at_pos(&self) -> T {
        self.head
    }

    open spec fn with_at(self, t: T) -> Self {
        Cons { head: t, tail: self.tail }
    }

    proof fn at_pos_with_at(self, t: T) {
    }

    proof fn with_at_at_pos(self) {
    }

    fn take(&self) -> (r: &T) {
        &self.head
    }

    fn take_mut(&mut self) -> (r: &mut T) {
        &mut self.head
    }
}

impl<T, H, Tail: HList, I: Index> ContainsAt<T, Succ<I>> for Cons<H, Tail> where
    Tail: ContainsAt<T, I>,
 {
    open spec fn at_pos(&self) -> T {
        self.tail.at_pos()
    }

    open spec fn with_at(self, t: T) -> Self {
        Cons { head: self.head, tail: self.tail.with_at(t) }
    }

    proof fn at_pos_with_at(self, t: T) {
        self.tail.at_pos_with_at(t);
    }

    proof fn with_at_at_pos(self) {
        self.tail.with_at_at_pos();
    }

    fn take(&self) -> (r: &T) {
        self.tail.take()
    }

    fn take_mut(&mut self) -> (r: &mut T) {
        self.tail.take_mut()
    }
}

} // verus!
