//! The two stack representations this crate bridges: the interpreter's
//! growable operand stack, and the fixed-capacity execution stack that
//! compiled code addresses by slot.
//!
//! The execution stack always exposes exactly 1024 slots; the logically
//! occupied prefix is tracked by a separate length counter, never by the
//! buffer itself. Construction over storage of insufficient capacity fails;
//! it never truncates silently.

use crate::word::{zero_word, EvmWord};
use vstd::prelude::*;
use vstd::slice::slice_index_get;

verus! {

/// Number of word slots in an execution stack.
pub const STACK_CAPACITY: usize = 1024;

/// Size of an execution stack in bytes.
pub const STACK_BYTES: usize = 32768;

/// The interpreter's operand stack: at most [`STACK_CAPACITY`] words.
#[derive(Debug)]
pub struct Stack {
    data: Vec<EvmWord>,
}

impl View for Stack {
    type V = Seq<Seq<u8>>;

    closed spec fn view(&self) -> Seq<Seq<u8>> {
        self.data@.map_values(|w: EvmWord| w@)
    }
}

impl Stack {
    #[verifier::type_invariant]
    spec fn cap_inv(self) -> bool {
        self.data@.len() <= STACK_CAPACITY
    }

    /// The empty stack.
    pub fn new() -> (r: Self)
        ensures
            r@ == Seq::<Seq<u8>>::empty(),
    {
        let data: Vec<EvmWord> = Vec::new();
        proof {
            assert(Stack { data }@ =~= Seq::<Seq<u8>>::empty());
        }
        Stack { data }
    }

    /// Builds a stack holding the given words; fails exactly when there are
    /// more of them than the stack capacity.
    pub fn from_words(words: Vec<EvmWord>) -> (r: Option<Self>)
        ensures
            r is Some <==> words@.len() <= STACK_CAPACITY,
            r matches Some(s) ==> s@.len() == words@.len() && (forall|i: int|
                0 <= i < words@.len() ==> s@[i] == words@[i]@),
    {
        if words.len() > STACK_CAPACITY {
            None
        } else {
            Some(Stack { data: words })
        }
    }

    /// The number of words on the stack.
    pub fn len(&self) -> (r: usize)
        ensures
            r == self@.len(),
    {
        self.data.len()
    }

    /// The word at position `i`, counted from the bottom.
    pub fn word_at(&self, i: usize) -> (r: &EvmWord)
        requires
            i < self@.len(),
        ensures
            r@ == self@[i as int],
    {
        &self.data[i]
    }

    /// Builds a stack out of the first `len` slots of an execution stack:
    /// the write-back half of the zero-copy interchange.
    pub fn from_buffer(buffer: &EvmStack, len: usize) -> (r: Self)
        requires
            len <= STACK_CAPACITY,
        ensures
            r@ == buffer@.take(len as int),
    {
        proof {
            use_type_invariant(buffer);
        }
        let mut data: Vec<EvmWord> = Vec::new();
        let mut i: usize = 0;
        while i < len
            invariant
                i <= len <= STACK_CAPACITY,
                buffer@.len() == STACK_CAPACITY,
                data@.len() == i,
                forall|j: int| 0 <= j < i ==> data@[j]@ == buffer@[j],
            decreases len - i,
        {
            data.push(buffer.word_at(i).clone());
            i = i + 1;
        }
        let r = Stack { data };
        proof {
            assert(r@ =~= buffer@.take(len as int));
        }
        r
    }
}

impl Clone for Stack {
    fn clone(&self) -> (r: Self)
        ensures
            r@ == self@,
    {
        proof {
            use_type_invariant(self);
        }
        let mut data: Vec<EvmWord> = Vec::new();
        let mut i: usize = 0;
        while i < self.data.len()
            invariant
                i <= self.data@.len() <= STACK_CAPACITY,
                data@.len() == i,
                forall|j: int| 0 <= j < i ==> data@[j]@ == self@[j],
            decreases self.data@.len() - i,
        {
            data.push(self.data[i].clone());
            i = i + 1;
        }
        let r = Stack { data };
        proof {
            assert(r@ =~= self@);
        }
        r
    }
}

/// The compiled-function execution stack: exactly [`STACK_CAPACITY`] word
/// slots, eagerly zero-initialized where fresh.
pub struct EvmStack {
    words: Vec<EvmWord>,
}

impl View for EvmStack {
    type V = Seq<Seq<u8>>;

    closed spec fn view(&self) -> Seq<Seq<u8>> {
        self.words@.map_values(|w: EvmWord| w@)
    }
}

impl EvmStack {
    #[verifier::type_invariant]
    spec fn cap_inv(self) -> bool {
        self.words@.len() == STACK_CAPACITY
    }

    /// A fresh, zero-filled execution stack.
    pub fn new() -> (r: Self)
        ensures
            r@.len() == STACK_CAPACITY,
            forall|i: int| 0 <= i < STACK_CAPACITY ==> r@[i] == zero_word(),
    {
        let mut words: Vec<EvmWord> = Vec::new();
        let mut i: usize = 0;
        while i < STACK_CAPACITY
            invariant
                i <= STACK_CAPACITY,
                words@.len() == i,
                forall|j: int| 0 <= j < i ==> words@[j]@ == zero_word(),
            decreases STACK_CAPACITY - i,
        {
            words.push(EvmWord::zero());
            i = i + 1;
        }
        EvmStack { words }
    }

    /// A fresh heap buffer sized to exactly the stack capacity, usable as
    /// backing storage for an execution stack.
    pub fn new_heap() -> (r: Vec<EvmWord>)
        ensures
            r@.len() == STACK_CAPACITY,
            forall|i: int| 0 <= i < STACK_CAPACITY ==> r@[i]@ == zero_word(),
    {
        let mut words: Vec<EvmWord> = Vec::new();
        let mut i: usize = 0;
        while i < STACK_CAPACITY
            invariant
                i <= STACK_CAPACITY,
                words@.len() == i,
                forall|j: int| 0 <= j < i ==> words@[j]@ == zero_word(),
            decreases STACK_CAPACITY - i,
        {
            words.push(EvmWord::zero());
            i = i + 1;
        }
        words
    }

    /// Builds an execution stack over the first [`STACK_CAPACITY`] words of
    /// a vector; fails exactly when the vector holds fewer.
    pub fn from_vec(vec: &Vec<EvmWord>) -> (r: Option<Self>)
        ensures
            r is Some <==> vec@.len() >= STACK_CAPACITY,
            r matches Some(s) ==> s@.len() == STACK_CAPACITY && (forall|i: int|
                0 <= i < STACK_CAPACITY ==> s@[i] == vec@[i]@),
    {
        Self::from_slice(vec.as_slice())
    }

    /// Builds an execution stack over the first [`STACK_CAPACITY`] words of
    /// a slice; fails exactly when the slice holds fewer.
    pub fn from_slice(slice: &[EvmWord]) -> (r: Option<Self>)
        ensures
            r is Some <==> slice@.len() >= STACK_CAPACITY,
            r matches Some(s) ==> s@.len() == STACK_CAPACITY && (forall|i: int|
                0 <= i < STACK_CAPACITY ==> s@[i] == slice@[i]@),
    {
        if slice.len() < STACK_CAPACITY {
            return None;
        }
        let mut words: Vec<EvmWord> = Vec::new();
        let mut i: usize = 0;
        while i < STACK_CAPACITY
            invariant
                i <= STACK_CAPACITY <= slice@.len(),
                words@.len() == i,
                forall|j: int| 0 <= j < i ==> words@[j]@ == slice@[j]@,
            decreases STACK_CAPACITY - i,
        {
            words.push(slice_index_get(slice, i).clone());
            i = i + 1;
        }
        Some(EvmStack { words })
    }

    /// The stack as a slice of exactly [`STACK_CAPACITY`] words.
    pub fn as_slice(&self) -> (r: &[EvmWord])
        ensures
            r@.len() == STACK_CAPACITY,
            forall|i: int| 0 <= i < STACK_CAPACITY ==> r@[i]@ == self@[i],
    {
        proof {
            use_type_invariant(self);
        }
        self.words.as_slice()
    }

    /// The word in slot `i`.
    pub fn word_at(&self, i: usize) -> (r: &EvmWord)
        requires
            i < STACK_CAPACITY,
        ensures
            r@ == self@[i as int],
    {
        proof {
            use_type_invariant(self);
        }
        &self.words[i]
    }

    /// Overwrites the word in slot `i`.
    pub fn set_word(&mut self, i: usize, w: EvmWord)
        requires
            i < STACK_CAPACITY,
        ensures
            final(self)@ == old(self)@.update(i as int, w@),
    {
        proof {
            use_type_invariant(&*self);
        }
        self.words[i] = w;
        proof {
            assert(self@ =~= old(self)@.update(i as int, w@));
        }
    }

    /// Copies the interpreter's stack into a fresh execution stack,
    /// zero-filling the slots above its length; returns the stack together
    /// with the value for its separate length counter.
    pub fn from_interpreter_stack(stack: &Stack) -> (r: (Self, usize))
        ensures
            r.1 == stack@.len(),
            r.1 <= STACK_CAPACITY,
            r.0@.len() == STACK_CAPACITY,
            forall|i: int| 0 <= i < stack@.len() ==> r.0@[i] == stack@[i],
            forall|i: int| stack@.len() <= i < STACK_CAPACITY ==> r.0@[i] == zero_word(),
    {
        proof {
            use_type_invariant(stack);
        }
        let len: usize = stack.len();
        let mut buffer = Self::new();
        let mut i: usize = 0;
        while i < len
            invariant
                i <= len == stack@.len() <= STACK_CAPACITY,
                buffer@.len() == STACK_CAPACITY,
                forall|j: int| 0 <= j < i ==> buffer@[j] == stack@[j],
                forall|j: int| i <= j < STACK_CAPACITY ==> buffer@[j] == zero_word(),
            decreases len - i,
        {
            buffer.set_word(i, stack.word_at(i).clone());
            i = i + 1;
        }
        (buffer, len)
    }

    /// The stack reinterpreted as its underlying bytes: slot `i` occupies
    /// bytes `32 * i` up to `32 * (i + 1)`, in native order.
    pub fn as_bytes(&self) -> (r: Vec<u8>)
        ensures
            r@.len() == STACK_BYTES,
            forall|i: int, j: int|
                0 <= i < STACK_CAPACITY && 0 <= j < 32 ==> r@[32 * i + j] == self@[i][j],
    {
        proof {
            use_type_invariant(self);
        }
        let mut bytes: Vec<u8> = Vec::new();
        let mut i: usize = 0;
        while i < STACK_CAPACITY
            invariant
                i <= STACK_CAPACITY,
                self@.len() == STACK_CAPACITY,
                bytes@.len() == 32 * i,
                forall|k: int, j: int| 0 <= k < i && 0 <= j < 32 ==> bytes@[32 * k + j]
                    == self@[k][j],
            decreases STACK_CAPACITY - i,
        {
            let w = self.word_at(i).to_ne_bytes();
            let ghost pre = bytes@;
            let mut j: usize = 0;
            while j < 32
                invariant
                    j <= 32,
                    i < STACK_CAPACITY,
                    self@.len() == STACK_CAPACITY,
                    w@ == self@[i as int],
                    w@.len() == 32,
                    bytes@ == pre + w@.take(j as int),
                    pre.len() == 32 * i,
                decreases 32 - j,
            {
                bytes.push(w[j]);
                proof {
                    assert(bytes@ =~= pre + w@.take(j + 1));
                }
                j = j + 1;
            }
            proof {
                assert(w@.take(32) =~= w@);
                assert(forall|k: int, j: int|
                    0 <= k < i + 1 && 0 <= j < 32 ==> #[trigger] bytes@[32 * k + j]
                        == self@[k][j]) by {
                    assert(forall|k: int, j: int|
                        0 <= k < i && 0 <= j < 32 ==> #[trigger] bytes@[32 * k + j] == pre[32 * k
                            + j]);
                    assert(forall|j: int|
                        0 <= j < 32 ==> #[trigger] bytes@[32 * (i as int) + j] == w@[j]);
                }
            }
            i = i + 1;
        }
        bytes
    }
}

impl Clone for EvmStack {
    fn clone(&self) -> (r: Self)
        ensures
            r@ == self@,
    {
        proof {
            use_type_invariant(self);
        }
        let mut words: Vec<EvmWord> = Vec::new();
        let mut i: usize = 0;
        while i < STACK_CAPACITY
            invariant
                i <= STACK_CAPACITY,
                self@.len() == STACK_CAPACITY,
                words@.len() == i,
                forall|j: int| 0 <= j < i ==> words@[j]@ == self@[j],
            decreases STACK_CAPACITY - i,
        {
            words.push(self.words[i].clone());
            i = i + 1;
        }
        let r = EvmStack { words };
        proof {
            assert(r@ =~= self@);
        }
        r
    }
}

} // verus!
