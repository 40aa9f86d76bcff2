use vstd::prelude::*;

use crate::nodes::add::Addable;

verus! {

/// A named buffer of pending jobs, consumed in last-in-first-out order.
struct Queue<T> {
    name: String,
    jobs: Vec<T>,
}

/// A sketch of an arithmetic node: one waiting operand and a queue of
/// produced sums.
pub struct Node<I, O> {
    state: Option<I>,
    name: String,
    out: Queue<O>,
}

/// Pairwise addition over two entry points: a value arriving alone waits,
/// a value arriving second is summed with the waiting one.
pub trait Addition<I, O, F> where I: Addable<I, O> + Copy, F: Fn(O) + Sized {
    fn in1(&mut self, v: I);

    fn in2(&mut self, v: I);
}

/// A probe taking values of one type.
pub trait Debug<T> {
    fn in1(v: T);
}

/// A job queue a handler can be connected to.
pub trait Schedule<T, F> where T: Sized, F: Fn(T) + Sized {
    /// Buffers a job.
    fn write(&mut self, v: T);

    /// Retires the most recent job unhandled.
    fn handle_next(self);

    /// Hands the most recent job, if any, to the handler.
    fn connect(&mut self, f: F)
        requires
            forall|t: T| f.requires((t,)),
    ;
}

impl<T, F> Schedule<T, F> for Queue<T> where T: Sized + Clone, F: Fn(T) + Sized {
    fn write(&mut self, v: T) {
        self.jobs.push(v);
    }

    fn handle_next(self) {
        let mut jobs = self.jobs;
        let _ = jobs.pop();
    }

    fn connect(&mut self, f: F) {
        match self.jobs.pop() {
            Some(j) => {
                f(j);
            },
            None => {},
        }
    }
}

impl<I, O, F> Addition<I, O, F> for Node<I, O> where
    O: Clone,
    I: Addable<I, O> + Copy,
    F: Fn(O) + Sized,
 {
    /// A waiting operand is summed with the arriving one (where the sum is
    /// defined) and the sum queued; otherwise the arriving value waits.
    fn in1(&mut self, v: I) {
        match self.state {
            Some(w) => {
                match w.try_sum(v) {
                    Some(s) => <Queue<O> as Schedule<O, F>>::write(&mut self.out, s),
                    None => {},
                }
            },
            None => {
                self.state = Some(v);
            },
        }
    }

    fn in2(&mut self, v: I) {
        match self.state {
            Some(w) => {
                match w.try_sum(v) {
                    Some(s) => <Queue<O> as Schedule<O, F>>::write(&mut self.out, s),
                    None => {},
                }
            },
            None => {
                self.state = Some(v);
            },
        }
    }
}

} // verus!
