//! A repeater turns a finite list of values into an endless supply: it hands
//! the values out in order and, once the list is used up, keeps handing out
//! the last one.

use vstd::prelude::*;

verus! {

/// The value at position `i` of the endless sequence that `input` stands for:
/// `input` itself, followed by its last value for ever. An empty `input` has
/// no last value, so it stands for no sequence at all.
pub open spec fn repeat_last<T>(input: Seq<T>, i: nat) -> Option<T> {
    if input.len() == 0 {
        None
    } else if i < input.len() {
        Some(input[i as int])
    } else {
        Some(input.last())
    }
}

/// The mathematical state of a repeater: the input it was made from and how
/// far into it the repeater has advanced.
pub struct Cursor<T> {
    pub input: Seq<T>,
    pub pos: nat,
}

impl<T> Cursor<T> {
    /// A cursor that has handed out nothing yet.
    pub open spec fn fresh(input: Seq<T>) -> Self {
        Cursor { input, pos: 0 }
    }

    /// The position never runs past the end of the input.
    pub open spec fn wf(self) -> bool {
        self.pos <= self.input.len()
    }

    /// What the next draw yields.
    pub open spec fn current(self) -> Option<T> {
        repeat_last(self.input, self.pos)
    }

    /// The cursor after one draw: one step further, unless the input is used
    /// up, where it stays.
    pub open spec fn advance(self) -> Self {
        Cursor {
            input: self.input,
            pos: if self.pos < self.input.len() {
                self.pos + 1
            } else {
                self.pos
            },
        }
    }

    /// The cursor after `k` draws.
    pub open spec fn advance_by(self, k: nat) -> Self
        decreases k,
    {
        if k == 0 {
            self
        } else {
            self.advance().advance_by((k - 1) as nat)
        }
    }

    /// What the next `k` draws yield, in order.
    pub open spec fn draws(self, k: nat) -> Seq<Option<T>> {
        Seq::new(k, |i: int| self.advance_by(i as nat).current())
    }
}

/// A stateful cursor over a list of values that never runs dry: see
/// [`repeat_last`]. Each repeater owns its input, so two repeaters made from
/// copies of one list advance independently of each other.
pub struct LastRepeatIter<T: Copy> {
    items: Vec<T>,
    pos: usize,
}

impl<T: Copy> View for LastRepeatIter<T> {
    type V = Cursor<T>;

    closed spec fn view(&self) -> Cursor<T> {
        Cursor { input: self.items@, pos: self.pos as nat }
    }
}

impl<T: Copy> LastRepeatIter<T> {
    #[verifier::type_invariant]
    spec fn in_bounds(self) -> bool {
        self.pos <= self.items.len()
    }

    /// A repeater at the start of `items`.
    pub fn new(items: Vec<T>) -> (it: Self)
        ensures
            it@ == Cursor::fresh(items@),
    {
        LastRepeatIter { items, pos: 0 }
    }

    /// Hands out the next value and advances. The result is `None` exactly
    /// when the repeater was made from an empty list.
    pub fn next(&mut self) -> (item: Option<T>)
        ensures
            item == old(self)@.current(),
            final(self)@ == old(self)@.advance(),
            old(self)@.wf(),
        no_unwind
    {
        proof {
            use_type_invariant(&*self);
        }
        let len = self.items.len();
        if len == 0 {
            None
        } else if self.pos < len {
            let item = self.items[self.pos];
            self.pos = self.pos + 1;
            Some(item)
        } else {
            Some(self.items[len - 1])
        }
    }
}

/// Where a cursor stands after `k` draws: `k` steps further, but never past
/// the end of its input.
pub proof fn lemma_advance_by<T>(c: Cursor<T>, k: nat)
    requires
        c.wf(),
    ensures
        c.advance_by(k).input == c.input,
        c.advance_by(k).wf(),
        c.advance_by(k).pos == if c.pos + k <= c.input.len() {
            c.pos + k
        } else {
            c.input.len()
        },
    decreases k,
{
    if k > 0 {
        lemma_advance_by(c.advance(), (k - 1) as nat);
    }
}

/// The repeater law: a repeater made from `input` hands out
/// `input[0], input[1], ..., input[n - 1]` and then `input[n - 1]` on every
/// further draw; made from an empty list, it has nothing to hand out, on
/// any draw.
pub proof fn lemma_repeater_law<T>(input: Seq<T>, k: nat)
    ensures
        Cursor::fresh(input).advance_by(k).current() == repeat_last(input, k),
        k < input.len() ==> repeat_last(input, k) == Some(input[k as int]),
        0 < input.len() <= k ==> repeat_last(input, k) == Some(input[input.len() - 1]),
        input.len() == 0 ==> repeat_last(input, k) is None,
{
    lemma_advance_by(Cursor::fresh(input), k);
}

/// The first `n` draws of a repeater, for any `n`, are the first `n` values
/// of the endless sequence that its input stands for.
pub proof fn lemma_draws<T>(input: Seq<T>, n: nat)
    ensures
        Cursor::fresh(input).draws(n) == Seq::new(n, |i: int| repeat_last(input, i as nat)),
{
    let drawn = Cursor::fresh(input).draws(n);
    assert forall|i: int| 0 <= i < n implies #[trigger] drawn[i] == repeat_last(
        input,
        i as nat,
    ) by {
        lemma_repeater_law(input, i as nat);
    }
    assert(drawn =~= Seq::new(n, |i: int| repeat_last(input, i as nat)));
}

} // verus!
