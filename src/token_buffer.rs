use vstd::prelude::*;

use crate::token::Token;
use crate::tokenizer::{ScannedToken, Tokenizer, is_tokenization, well_scanned};

verus! {

broadcast use vstd::std_specs::vec::group_vec_axioms;

/// The capacity after one push onto a buffer of `len` tokens and capacity
/// `cap`: a full buffer grows to 1 from 0, else to twice its capacity.
pub open spec fn next_capacity(len: nat, cap: nat) -> nat {
    if len == cap {
        if cap == 0 {
            1
        } else {
            2 * cap
        }
    } else {
        cap
    }
}

/// `2` to the power `k`.
pub open spec fn power_of_two(k: nat) -> nat
    decreases k,
{
    if k == 0 {
        1
    } else {
        2 * power_of_two((k - 1) as nat)
    }
}

/// The capacity that doubling growth gives to `len` tokens pushed onto an
/// empty buffer of capacity 0: 0 for none, else the least power of two that
/// holds them.
pub open spec fn is_doubling_capacity(len: nat, cap: nat) -> bool {
    ||| len == 0 && cap == 0
    ||| exists|k: nat| cap == #[trigger] power_of_two(k) && len <= cap && cap < 2 * len
}

/// An owning, growable sequence of tokens with its own capacity bookkeeping:
/// the capacity grows 0, 1, 2, 4, ... as tokens are pushed onto a full buffer.
pub struct TokenDynamicArray {
    items: Vec<Token>,
    cap: usize,
}

impl View for TokenDynamicArray {
    type V = Seq<Token>;

    closed spec fn view(&self) -> Seq<Token> {
        self.items@
    }
}

impl TokenDynamicArray {
    /// The number of tokens the buffer holds room for.
    pub closed spec fn spec_capacity(&self) -> nat {
        self.cap as nat
    }

    /// The buffer never holds more tokens than its capacity.
    pub closed spec fn wf(&self) -> bool {
        self.items@.len() <= self.cap
    }

    pub fn new() -> (r: TokenDynamicArray)
        ensures
            r.wf(),
            r@.len() == 0,
            r.spec_capacity() == 0,
    {
        TokenDynamicArray { items: Vec::new(), cap: 0 }
    }

    pub fn with_capacity(capacity: usize) -> (r: TokenDynamicArray)
        ensures
            r.wf(),
            r@.len() == 0,
            r.spec_capacity() == capacity,
    {
        TokenDynamicArray { items: Vec::with_capacity(capacity), cap: capacity }
    }

    /// Appends a token, growing the capacity first where the buffer is full.
    pub fn push(&mut self, item: Token)
        requires
            old(self).wf(),
            old(self)@.len() < old(self).spec_capacity() || old(self).spec_capacity() <= usize::MAX
                / 2,
        ensures
            final(self).wf(),
            final(self)@ == old(self)@.push(item),
            final(self).spec_capacity() == next_capacity(
                old(self)@.len(),
                old(self).spec_capacity(),
            ),
    {
        if self.items.len() == self.cap {
            self.resize();
        }
        self.items.push(item);
    }

    fn resize(&mut self)
        requires
            old(self).cap <= usize::MAX / 2,
            old(self)@.len() == old(self).cap,
        ensures
            final(self)@ == old(self)@,
            final(self).cap == next_capacity(old(self)@.len(), old(self).cap as nat),
    {
        let new_capacity = if self.cap == 0 {
            1
        } else {
            self.cap * 2
        };
        self.cap = new_capacity;
    }

    /// Removes and returns the last token, or `None` on an empty buffer.
    pub fn pop(&mut self) -> (r: Option<Token>)
        requires
            old(self).wf(),
        ensures
            final(self).wf(),
            final(self).spec_capacity() == old(self).spec_capacity(),
            old(self)@.len() == 0 ==> r is None && final(self)@ == old(self)@,
            old(self)@.len() > 0 ==> r == Some(old(self)@.last()) && final(self)@
                == old(self)@.drop_last(),
    {
        self.items.pop()
    }

    /// The token at `index`, or `None` past the end.
    pub fn get(&self, index: usize) -> (r: Option<&Token>)
        ensures
            index < self@.len() ==> r == Some(&self@[index as int]),
            index >= self@.len() ==> r is None,
    {
        if index < self.items.len() {
            Some(&self.items[index])
        } else {
            None
        }
    }

    /// Replaces the token at `index`, which must be in range.
    pub fn set(&mut self, index: usize, item: Token)
        requires
            old(self).wf(),
            index < old(self)@.len(),
        ensures
            final(self).wf(),
            final(self)@ == old(self)@.update(index as int, item),
            final(self).spec_capacity() == old(self).spec_capacity(),
    {
        self.items.set(index, item);
    }

    pub fn len(&self) -> (r: usize)
        ensures
            r == self@.len(),
    {
        self.items.len()
    }

    pub fn is_empty(&self) -> (r: bool)
        ensures
            r == (self@.len() == 0),
    {
        self.items.len() == 0
    }

    pub fn capacity(&self) -> (r: usize)
        ensures
            r == self.spec_capacity(),
    {
        self.cap
    }

    /// Drops every token and keeps the capacity.
    pub fn clear(&mut self)
        requires
            old(self).wf(),
        ensures
            final(self).wf(),
            final(self)@.len() == 0,
            final(self).spec_capacity() == old(self).spec_capacity(),
    {
        while self.pop().is_some()
            invariant
                self.wf(),
                self.spec_capacity() == old(self).spec_capacity(),
            decreases self@.len(),
        {
        }
    }
}

/// Doubling growth: a buffer whose capacity is the least power of two that
/// holds its tokens (or 0 for an empty buffer of capacity 0) keeps that
/// property through every push, so capacities run 1, 2, 4, 8, ... as a
/// buffer started at capacity 0 fills.
pub proof fn lemma_doubling_growth(len: nat, cap: nat)
    requires
        is_doubling_capacity(len, cap),
    ensures
        is_doubling_capacity(len + 1, next_capacity(len, cap)),
{
    if len == 0 && cap == 0 {
        assert(next_capacity(len, cap) == power_of_two(0));
    } else {
        let k = choose|k: nat| cap == #[trigger] power_of_two(k) && len <= cap && cap < 2 * len;
        if len == cap {
            assert(power_of_two(k + 1) == 2 * power_of_two(k));
            assert(next_capacity(len, cap) == power_of_two(k + 1));
        } else {
            assert(next_capacity(len, cap) == power_of_two(k));
        }
    }
}

/// Tokenizes one input from the matches of the pattern scanner and hands the
/// tokens over in a buffer sized to hold exactly them.
pub fn tokenize_w(file_name: &str, input: &str, scanned: &Vec<ScannedToken>) -> (r:
    TokenDynamicArray)
    requires
        well_scanned(input@, scanned@),
        input@.len() < usize::MAX,
    ensures
        r.wf(),
        is_tokenization(file_name@, input@, scanned@, r@),
        r.spec_capacity() == scanned@.len() + 1,
{
    let mut tokenizer = Tokenizer::new(file_name, input);
    let tokens_vec = tokenizer.tokenize(scanned);
    let ghost all = tokens_vec@;
    let n = tokens_vec.len();
    let mut rest = tokens_vec;
    let mut reversed: Vec<Token> = Vec::new();
    while rest.len() > 0
        invariant
            n == all.len(),
            rest@ == all.subrange(0, rest@.len() as int),
            rest@.len() + reversed@.len() == n,
            forall|j: int| 0 <= j < reversed@.len() ==> #[trigger] reversed@[j] == all[n - 1 - j],
        decreases rest@.len(),
    {
        let token = rest.pop().unwrap();
        reversed.push(token);
    }
    let mut tokens = TokenDynamicArray::with_capacity(n);
    while reversed.len() > 0
        invariant
            n == all.len(),
            tokens.wf(),
            tokens.spec_capacity() == n,
            tokens@ == all.subrange(0, tokens@.len() as int),
            tokens@.len() + reversed@.len() == n,
            forall|j: int| 0 <= j < reversed@.len() ==> #[trigger] reversed@[j] == all[n - 1 - j],
        decreases reversed@.len(),
    {
        let token = reversed.pop().unwrap();
        tokens.push(token);
    }
    assert(tokens@ == all);
    tokens
}

} // verus!
