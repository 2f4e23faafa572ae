//! Single-value slots through which values cross between two call stacks.
use vstd::prelude::*;

verus! {

/// A slot that holds at most one value, moved out exactly once.
#[derive(Debug)]
pub enum ValueExchangeContainer<V> {
    Value(V),
    Empty,
}

impl<V> ValueExchangeContainer<V> {
    /// Wraps `val` in a full slot.
    pub fn prepare_exchange(val: V) -> (r: Self)
        ensures
            r == ValueExchangeContainer::Value(val),
    {
        ValueExchangeContainer::Value(val)
    }

    /// Whether the slot still holds its value.
    pub fn has_content(&self) -> (r: bool)
        ensures
            r == (*self is Value),
    {
        match self {
            ValueExchangeContainer::Value(_) => true,
            ValueExchangeContainer::Empty => false,
        }
    }

    /// Moves the value out and leaves the slot empty. Reading an empty slot
    /// is a protocol violation, so the slot must be full.
    pub fn receive_content(&mut self) -> (r: V)
        requires
            *old(self) is Value,
        ensures
            *old(self) == ValueExchangeContainer::Value(r),
            *final(self) == ValueExchangeContainer::<V>::Empty,
    {
        let mut taken = ValueExchangeContainer::Empty;
        core::mem::swap(self, &mut taken);
        match taken {
            ValueExchangeContainer::Value(v) => v,
            ValueExchangeContainer::Empty => unreached(),
        }
    }
}

impl<V> Default for ValueExchangeContainer<V> {
    fn default() -> (r: Self)
        ensures
            r == ValueExchangeContainer::<V>::Empty,
    {
        ValueExchangeContainer::Empty
    }
}

impl<V> From<V> for ValueExchangeContainer<V> {
    fn from(v: V) -> (r: Self) {
        ValueExchangeContainer::prepare_exchange(v)
    }
}

impl<V> vstd::std_specs::convert::FromSpecImpl<V> for ValueExchangeContainer<V> {
    open spec fn obeys_from_spec() -> bool {
        true
    }

    open spec fn from_spec(v: V) -> Self {
        ValueExchangeContainer::Value(v)
    }
}

/// A non-owning handle on the peer's slot, used to write into it.
pub struct ExchangeContainerRef<'a, V>(pub &'a mut ValueExchangeContainer<V>);

impl<'a, V> ExchangeContainerRef<'a, V> {
    pub fn new(container: &'a mut ValueExchangeContainer<V>) -> (r: Self)
        ensures
            *r.0 == *old(container),
            *final(container) == *final(r.0),
    {
        ExchangeContainerRef(container)
    }

    /// Fills the referenced slot with `val`. Writing into a full slot is a
    /// protocol violation, so the slot must be empty.
    pub fn send_value(&mut self, val: V)
        requires
            *old(self).0 is Empty,
        ensures
            *final(self).0 == ValueExchangeContainer::Value(val),
            *final(final(self).0) == *final(old(self).0),
    {
        *self.0 = ValueExchangeContainer::prepare_exchange(val);
    }

    /// Points the handle at `target`, the peer's newest slot. The slot it
    /// referred to so far must have been drained; it is left as it was.
    pub fn receive_ref(&mut self, target: &'a mut ValueExchangeContainer<V>)
        requires
            *old(self).0 is Empty,
        ensures
            *final(old(self).0) == *old(self).0,
            *final(self).0 == *old(target),
            *final(final(self).0) == *final(target),
    {
        self.0 = target;
    }
}

/// One operation on a slot: the peer writes a value into it, or its owner
/// drains it.
#[derive(Debug)]
pub enum SlotOp<V> {
    Send(V),
    Receive,
}

/// Runs `ops` on the slot `c` as `send_value` and `receive_content` do, and
/// collects what the owner drained. `None` where an operation breaks their
/// preconditions: a write into a full slot, or a read from an empty one.
pub open spec fn run_slot<V>(c: ValueExchangeContainer<V>, ops: Seq<SlotOp<V>>) -> Option<
    (ValueExchangeContainer<V>, Seq<V>),
>
    decreases ops.len(),
{
    if ops.len() == 0 {
        Some((c, Seq::empty()))
    } else {
        match run_slot(c, ops.drop_last()) {
            None => None,
            Some((d, got)) => match (ops.last(), d) {
                (SlotOp::Send(v), ValueExchangeContainer::Empty) => Some(
                    (ValueExchangeContainer::Value(v), got),
                ),
                (SlotOp::Receive, ValueExchangeContainer::Value(v)) => Some(
                    (ValueExchangeContainer::Empty, got.push(v)),
                ),
                _ => None,
            },
        }
    }
}

/// The values written by the `Send` operations of `ops`, in order.
pub open spec fn sent_values<V>(ops: Seq<SlotOp<V>>) -> Seq<V>
    decreases ops.len(),
{
    if ops.len() == 0 {
        Seq::empty()
    } else {
        match ops.last() {
            SlotOp::Send(v) => sent_values(ops.drop_last()).push(v),
            SlotOp::Receive => sent_values(ops.drop_last()),
        }
    }
}

/// A value put in a slot by `prepare_exchange` comes back unchanged from
/// `receive_content`, which leaves the slot empty.
pub proof fn lemma_prepare_then_receive<V>(v: V)
    ensures
        run_slot(ValueExchangeContainer::Value(v), seq![SlotOp::Receive]) == Some(
            (ValueExchangeContainer::<V>::Empty, seq![v]),
        ),
{
    let c = ValueExchangeContainer::Value(v);
    let ops = seq![SlotOp::Receive];
    assert(ops.drop_last() =~= Seq::<SlotOp<V>>::empty());
    assert(run_slot(c, ops.drop_last()) == Some((c, Seq::<V>::empty())));
    assert(Seq::<V>::empty().push(v) =~= seq![v]);
}

/// Through a slot that starts empty and is used within its protocol, the
/// owner drains exactly the values the peer wrote, in the order written,
/// each once: all of them when the slot ends empty, all but the last one,
/// still in the slot, otherwise.
pub proof fn lemma_slot_keeps_order<V>(ops: Seq<SlotOp<V>>)
    requires
        run_slot(ValueExchangeContainer::Empty, ops) is Some,
    ensures
        match run_slot(ValueExchangeContainer::Empty, ops).unwrap() {
            (ValueExchangeContainer::Empty, got) => got == sent_values(ops),
            (ValueExchangeContainer::Value(v), got) => sent_values(ops) == got.push(v),
        },
    decreases ops.len(),
{
    if ops.len() > 0 {
        lemma_slot_keeps_order(ops.drop_last());
    }
}

} // verus!
