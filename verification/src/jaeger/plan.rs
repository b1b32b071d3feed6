//! The calls that make up a message, laid out before any is made.
//!
//! A [`Plan`] is the list of the calls that go to the codec, in their order.
//! It takes a call only when the call comes in turn, so that a plan as a
//! whole can be handed to the codec without stopping it.

use vstd::prelude::*;

verus! {

/// The type of a field or of the elements of a list.
#[derive(Debug, Clone, Copy, PartialEq, Eq, Structural)]
pub enum FieldKind {
    Bool,
    I32,
    I64,
    Double,
    Text,
    Struct,
    List,
}

/// The kind of a message.
#[derive(Debug, Clone, Copy, PartialEq, Eq, Structural)]
pub enum MessageKind {
    Call,
    Reply,
    Exception,
    OneWay,
}

/// One call on the output protocol, with what it hands over.
#[derive(Debug, Clone, Copy)]
pub enum Op<'a> {
    MessageBegin { name: &'a str, message: MessageKind, sequence_number: i32 },
    MessageEnd,
    StructBegin { name: &'a str },
    StructEnd,
    FieldBegin { name: &'a str, kind: FieldKind, id: i16 },
    FieldEnd,
    FieldStop,
    Bool(bool),
    Byte(u8),
    I32(i32),
    I64(i64),
    Text(&'a str),
    Bytes(&'a [u8]),
    ListBegin { kind: FieldKind, size: i32 },
    ListEnd,
}

/// What an [`Op`] denotes.
pub ghost enum Call {
    MessageBegin { name: Seq<char>, message: MessageKind, sequence_number: i32 },
    MessageEnd,
    StructBegin { name: Seq<char> },
    StructEnd,
    FieldBegin { name: Seq<char>, kind: FieldKind, id: i16 },
    FieldEnd,
    FieldStop,
    Bool(bool),
    Byte(u8),
    I32(i32),
    I64(i64),
    Text(Seq<char>),
    Bytes(Seq<u8>),
    ListBegin { kind: FieldKind, size: i32 },
    ListEnd,
}

impl<'a> View for Op<'a> {
    type V = Call;

    open spec fn view(&self) -> Call {
        match *self {
            Op::MessageBegin { name, message, sequence_number } => Call::MessageBegin {
                name: name@,
                message,
                sequence_number,
            },
            Op::MessageEnd => Call::MessageEnd,
            Op::StructBegin { name } => Call::StructBegin { name: name@ },
            Op::StructEnd => Call::StructEnd,
            Op::FieldBegin { name, kind, id } => Call::FieldBegin { name: name@, kind, id },
            Op::FieldEnd => Call::FieldEnd,
            Op::FieldStop => Call::FieldStop,
            Op::Bool(value) => Call::Bool(value),
            Op::Byte(value) => Call::Byte(value),
            Op::I32(value) => Call::I32(value),
            Op::I64(value) => Call::I64(value),
            Op::Text(value) => Call::Text(value@),
            Op::Bytes(value) => Call::Bytes(value@),
            Op::ListBegin { kind, size } => Call::ListBegin { kind, size },
            Op::ListEnd => Call::ListEnd,
        }
    }
}

/// The calls that write the given bytes one by one.
pub open spec fn byte_calls(bytes: Seq<u8>) -> Seq<Call> {
    bytes.map_values(|byte: u8| Call::Byte(byte))
}

/// Where a sequence of calls stands: how many structs were begun and not
/// ended, and whether a boolean field was begun and its value not yet
/// given.
pub ghost struct Turn {
    pub depth: nat,
    pub pending: bool,
}

/// Whether a call comes in turn. A struct can end only when one is open;
/// a field needs a positive number; and while a boolean field waits for its
/// value, no field can begin or end and no struct or message can end.
pub open spec fn admits(turn: Turn, call: Call) -> bool {
    match call {
        Call::MessageEnd | Call::FieldEnd | Call::FieldStop => !turn.pending,
        Call::StructEnd => turn.depth > 0 && !turn.pending,
        Call::FieldBegin { id, .. } => id > 0 && !turn.pending,
        _ => true,
    }
}

/// Where the calls stand after one more.
pub open spec fn turn_after(turn: Turn, call: Call) -> Turn {
    match call {
        Call::StructBegin { .. } => Turn { depth: turn.depth + 1, ..turn },
        Call::StructEnd => Turn { depth: (turn.depth - 1) as nat, pending: false },
        Call::FieldBegin { kind, .. } => Turn { pending: kind == FieldKind::Bool, ..turn },
        Call::Bool(_) | Call::MessageEnd | Call::FieldEnd | Call::FieldStop => Turn {
            pending: false,
            ..turn
        },
        _ => turn,
    }
}

/// Where a sequence of calls stands at its end, if every call in it comes
/// in turn, and `None` if one does not.
pub open spec fn in_turn(calls: Seq<Call>) -> Option<Turn>
    decreases calls.len(),
{
    if calls.len() == 0 {
        Some(Turn { depth: 0, pending: false })
    } else {
        match in_turn(calls.drop_last()) {
            Some(turn) => if admits(turn, calls.last()) {
                Some(turn_after(turn, calls.last()))
            } else {
                None
            },
            None => None,
        }
    }
}

/// Where every call of a sequence comes in turn, so does every call of each
/// of its beginnings.
pub proof fn lemma_beginnings_are_in_turn(calls: Seq<Call>, n: int)
    requires
        in_turn(calls) is Some,
        0 <= n <= calls.len(),
    ensures
        in_turn(calls.subrange(0, n)) is Some,
    decreases calls.len(),
{
    if n == calls.len() {
        assert(calls.subrange(0, n) =~= calls);
    } else {
        lemma_beginnings_are_in_turn(calls.drop_last(), n);
        assert(calls.drop_last().subrange(0, n) =~= calls.subrange(0, n));
    }
}

/// The calls that an [`Op`] list denotes, one for one.
pub open spec fn calls_of(ops: Seq<Op>) -> Seq<Call> {
    ops.map_values(|op: Op| op@)
}

/// The calls of a message in their order, every one in turn.
pub struct Plan<'a> {
    ops: Vec<Op<'a>>,
    turn: Ghost<Turn>,
}

impl<'a> Plan<'a> {
    /// Every call comes in turn.
    pub closed spec fn wf(&self) -> bool {
        in_turn(calls_of(self.ops@)) == Some(self.turn@)
    }

    /// The calls that were planned so far.
    pub closed spec fn calls(&self) -> Seq<Call> {
        calls_of(self.ops@)
    }

    /// Where the calls stand.
    pub closed spec fn turn(&self) -> Turn {
        self.turn@
    }

    /// A plan without a call.
    pub fn new() -> (plan: Self)
        ensures
            plan.wf(),
            plan.calls() == Seq::<Call>::empty(),
            plan.turn() == (Turn { depth: 0, pending: false }),
    {
        let plan = Plan { ops: Vec::new(), turn: Ghost(Turn { depth: 0, pending: false }) };
        assert(calls_of(plan.ops@) =~= Seq::<Call>::empty());
        plan
    }

    /// Plans one more call, which has to come in turn.
    pub fn push(&mut self, op: Op<'a>)
        requires
            old(self).wf(),
            admits(old(self).turn(), op@),
        ensures
            final(self).wf(),
            final(self).calls() == old(self).calls().push(op@),
            final(self).turn() == turn_after(old(self).turn(), op@),
    {
        self.ops.push(op);
        proof {
            self.turn@ = turn_after(self.turn@, op@);
            assert(calls_of(self.ops@) =~= calls_of(old(self).ops@).push(op@));
            assert(calls_of(self.ops@).drop_last() =~= calls_of(old(self).ops@));
        }
    }

    /// The planned calls, in their order.
    pub fn ops(&self) -> (ops: &Vec<Op<'a>>)
        ensures
            calls_of(ops@) == self.calls(),
    {
        &self.ops
    }

    /// The proof that the planned calls are in turn.
    pub proof fn lemma_in_turn(&self)
        requires
            self.wf(),
        ensures
            in_turn(self.calls()) == Some(self.turn()),
    {
    }
}

} // verus!
