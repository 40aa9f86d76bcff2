use vstd::prelude::*;

use crate::nodes::connection::{Input, Output, RuntimeConnectable};
use crate::nodes::node::AnyHandle;
use crate::nodes::connection::message_error;
use crate::nodes::node::{Context, Node, State, UpdateError};

verus! {

#[verifier::external_type_specification]
#[verifier::external_body]
pub struct ExJsonValue(serde_json::Value);

/// What it means to add two values of the carried types: the engine's
/// arithmetic node is generic over this trait, which fixes both the sum and
/// when the sum is defined (no overflow, compatible operands).
pub trait Addable<Rhs, Out>: Sized {
    /// Whether the sum of this pair of operands is defined.
    spec fn sum_defined(self, rhs: Rhs) -> bool;

    /// What it means for `out` to be the sum of the pair.
    spec fn sum_rel(self, rhs: Rhs, out: Out) -> bool;

    /// Computes the sum, or reports that it is undefined.
    fn try_sum(self, rhs: Rhs) -> (r: Option<Out>)
        ensures
            match r {
                Some(o) => self.sum_defined(rhs) && self.sum_rel(rhs, o),
                None => !self.sum_defined(rhs),
            },
    ;
}

impl Addable<i32, i32> for i32 {
    open spec fn sum_defined(self, rhs: i32) -> bool {
        i32::MIN <= self + rhs <= i32::MAX
    }

    open spec fn sum_rel(self, rhs: i32, out: i32) -> bool {
        out == self + rhs
    }

    fn try_sum(self, rhs: i32) -> (r: Option<i32>) {
        self.checked_add(rhs)
    }
}

impl Addable<i64, i64> for i64 {
    open spec fn sum_defined(self, rhs: i64) -> bool {
        i64::MIN <= self + rhs <= i64::MAX
    }

    open spec fn sum_rel(self, rhs: i64, out: i64) -> bool {
        out == self + rhs
    }

    fn try_sum(self, rhs: i64) -> (r: Option<i64>) {
        self.checked_add(rhs)
    }
}

/// What the add node has seen since it last produced a sum: nothing, or one
/// value waiting on either input.
enum AddNodeState<I1, I2> {
    I1(I1),
    I2(I2),
    Empty,
}

/// Adds pairs: one value from each input produces their sum on the output.
/// Two values in a row on the same input are a sequence error.
#[verifier::reject_recursive_types(I1)]
#[verifier::reject_recursive_types(I2)]
#[verifier::reject_recursive_types(O)]
pub struct AddNode<I1, I2, O> where I1: Clone, I2: Clone {
    name: String,
    state: AddNodeState<I1, I2>,
    _props: serde_json::Value,
    _context: State<Context>,

    pub input_1: Input<I1>,
    pub input_2: Input<I2>,
    pub output_1: Output<O>,
}

impl<I1, I2, O> AddNode<I1, I2, O> where I1: Clone, I2: Clone {
    /// The value waiting on the first input, if one is held.
    pub closed spec fn holds_first(&self) -> Option<I1> {
        match self.state {
            AddNodeState::I1(v) => Some(v),
            _ => None,
        }
    }

    /// The value waiting on the second input, if one is held.
    pub closed spec fn holds_second(&self) -> Option<I2> {
        match self.state {
            AddNodeState::I2(v) => Some(v),
            _ => None,
        }
    }

    /// Both inputs of a freshly built node can be read by the node itself.
    pub closed spec fn wf(&self) -> bool {
        &&& self.input_1.is_consumer()
        &&& self.input_2.is_consumer()
    }
}

impl<I1, I2, O> AddNode<I1, I2, O> where
    I1: Clone + Addable<I2, O>,
    I2: Clone,
    O: Clone,
 {
    pub fn new(name: &str, context: State<Context>, props: serde_json::Value) -> (r: Self)
        ensures
            r.wf(),
            r.holds_first() is None,
            r.holds_second() is None,
    {
        Self {
            name: name.to_string(),
            state: AddNodeState::Empty,
            _props: props,
            _context: context,

            input_1: Input::new(),
            input_2: Input::new(),
            output_1: Output::new(None),
        }
    }

    /// A value arrived on the first input.  Paired with a waiting second
    /// value it produces their sum on the output; alone it waits; after
    /// another waiting first value it is a sequence error (addition happens
    /// pairwise) and the waiting state is untouched.
    fn handle_1(&mut self, v: I1) -> (r: Result<(), UpdateError>)
        ensures
            final(self).wf() == old(self).wf(),
            old(self).holds_first() is Some ==> (r matches Err(
                UpdateError::SequenceError { message },
            ) && message@ == "Addition should happen pairwise."@
                && final(self).holds_first() == old(self).holds_first()
                && final(self).holds_second() == old(self).holds_second()),
            old(self).holds_first() is None && old(self).holds_second() is None ==> r is Ok
                && final(self).holds_first() == Some(v) && final(self).holds_second() is None,
            old(self).holds_second() matches Some(i) ==> final(self).holds_first() is None
                && final(self).holds_second() is None && (r is Ok <==> v.sum_defined(i)),
    {
        let mut state = AddNodeState::Empty;
        std::mem::swap(&mut state, &mut self.state);
        match state {
            AddNodeState::I1(prev) => {
                self.state = AddNodeState::I1(prev);
                Err(
                    UpdateError::SequenceError {
                        message: "Addition should happen pairwise.".to_string(),
                    },
                )
            },
            AddNodeState::I2(i) => {
                match v.try_sum(i) {
                    Some(out) => {
                        let mut output = self.output_1.clone();
                        let _ = output.send(out);
                        Ok(())
                    },
                    None => Err(UpdateError::Other(message_error("Addition is not defined for this pair."))),
                }
            },
            AddNodeState::Empty => {
                self.state = AddNodeState::I1(v);
                Ok(())
            },
        }
    }

    /// A value arrived on the second input; the mirror image of
    /// [`AddNode::handle_1`].
    fn handle_2(&mut self, v: I2) -> (r: Result<(), UpdateError>)
        ensures
            final(self).wf() == old(self).wf(),
            old(self).holds_second() is Some ==> (r matches Err(
                UpdateError::SequenceError { message },
            ) && message@ == "Addition should happen pairwise."@
                && final(self).holds_first() == old(self).holds_first()
                && final(self).holds_second() == old(self).holds_second()),
            old(self).holds_first() is None && old(self).holds_second() is None ==> r is Ok
                && final(self).holds_second() == Some(v) && final(self).holds_first() is None,
            old(self).holds_first() matches Some(i) ==> final(self).holds_first() is None
                && final(self).holds_second() is None && (r is Ok <==> i.sum_defined(v)),
    {
        let mut state = AddNodeState::Empty;
        std::mem::swap(&mut state, &mut self.state);
        match state {
            AddNodeState::I2(prev) => {
                self.state = AddNodeState::I2(prev);
                Err(
                    UpdateError::SequenceError {
                        message: "Addition should happen pairwise.".to_string(),
                    },
                )
            },
            AddNodeState::I1(i) => {
                match i.try_sum(v) {
                    Some(out) => {
                        let mut output = self.output_1.clone();
                        let _ = output.send(out);
                        Ok(())
                    },
                    None => Err(UpdateError::Other(message_error("Addition is not defined for this pair."))),
                }
            },
            AddNodeState::Empty => {
                self.state = AddNodeState::I2(v);
                Ok(())
            },
        }
    }
}

impl<I1, I2, O> Node for AddNode<I1, I2, O> where
    I1: Clone + Addable<I2, O> + Send + 'static,
    I2: Clone + Send + 'static,
    O: Clone + Send + 'static,
 {
    /// Takes at most one value from each input and feeds the pairing state
    /// machine; see [`AddNode::handle_1`] and [`AddNode::handle_2`].
    fn on_update(&mut self) -> Result<(), UpdateError> {
        if self.input_1.can_receive() {
            match self.input_1.next() {
                Ok(i1) => {
                    let r = self.handle_1(i1);
                    match r {
                        Ok(()) => {},
                        Err(e) => {
                            return Err(e);
                        },
                    }
                },
                Err(_) => {},
            }
        }
        if self.input_2.can_receive() {
            match self.input_2.next() {
                Ok(i2) => {
                    let r = self.handle_2(i2);
                    match r {
                        Ok(()) => {},
                        Err(e) => {
                            return Err(e);
                        },
                    }
                },
                Err(_) => {},
            }
        }
        Ok(())
    }
}

impl<I1, I2, O> RuntimeConnectable for AddNode<I1, I2, O> where
    I1: Clone + Send + 'static,
    I2: Clone + Send + 'static,
    O: Clone + Send + 'static,
 {
    open spec fn n_inputs(&self) -> usize {
        2
    }

    open spec fn n_outputs(&self) -> usize {
        1
    }

    fn input_count(&self) -> usize {
        2
    }

    fn output_count(&self) -> usize {
        1
    }

    fn input_at(&self, index: usize) -> AnyHandle {
        if index == 0 {
            AnyHandle::of(self.input_1.clone())
        } else {
            AnyHandle::of(self.input_2.clone())
        }
    }

    fn output_at(&self, index: usize) -> AnyHandle {
        AnyHandle::of(self.output_1.clone())
    }
}

} // verus!
