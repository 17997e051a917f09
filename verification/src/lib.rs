//! A fixed-capacity, single-owner staging buffer.
//!
//! Elements are appended one at a time with `add` and drained all at once
//! with `consume`, which hands the stored elements back in insertion order
//! and resets the buffer to empty. The only failure is `add` on a full
//! buffer, which returns the rejected element to the caller so that no
//! data is lost.

use vstd::prelude::*;

verus! {

/// Number of elements a `StaticBuffer` can hold.
pub const BUFFER_SIZE: usize = 512;

/// Error returned when an element is added to a full buffer.
///
/// It carries the rejected element, so the caller can retry it later or
/// dispose of it; nothing is lost on rejection.
#[derive(Debug)]
pub struct BufferFullError<T>(pub T);

/// What one addition does to the held elements: the element is appended
/// when there is room, and the contents stay unchanged when the buffer
/// is already at capacity.
pub open spec fn add_model<T>(s: Seq<T>, cap: nat, element: T) -> Seq<T> {
    if s.len() < cap {
        s.push(element)
    } else {
        s
    }
}

/// Whether one addition is accepted: exactly when the buffer has room.
pub open spec fn add_accepted<T>(s: Seq<T>, cap: nat, element: T) -> bool {
    s.len() < cap
}

/// The held elements after a run of additions, one element of `run` at a
/// time in order, with no intervening consumption.
pub open spec fn add_run<T>(s: Seq<T>, cap: nat, run: Seq<T>) -> Seq<T>
    decreases run.len(),
{
    if run.len() == 0 {
        s
    } else {
        add_run(add_model(s, cap, run[0]), cap, run.skip(1))
    }
}

/// Whether every addition in such a run is accepted.
pub open spec fn add_run_accepted<T>(s: Seq<T>, cap: nat, run: Seq<T>) -> bool
    decreases run.len(),
{
    run.len() == 0 || (add_accepted(s, cap, run[0]) && add_run_accepted(
        add_model(s, cap, run[0]),
        cap,
        run.skip(1),
    ))
}

/// A run of additions that fits in the buffer's free space is accepted in
/// full: every addition succeeds, and the run ends up appended to the held
/// elements in order. In particular, a buffer that starts empty — as a new
/// buffer does, and as any buffer does after a consumption — accepts any
/// run of up to `cap` elements, and holds exactly that run afterwards.
pub proof fn lemma_add_run_within_capacity<T>(s: Seq<T>, cap: nat, run: Seq<T>)
    requires
        s.len() + run.len() <= cap,
    ensures
        add_run_accepted(s, cap, run),
        add_run(s, cap, run) == s + run,
    decreases run.len(),
{
    if run.len() == 0 {
        assert(s + run =~= s);
    } else {
        lemma_add_run_within_capacity(s.push(run[0]), cap, run.skip(1));
        assert(s.push(run[0]) + run.skip(1) =~= s + run);
    }
}

/// An addition to a full buffer is refused and leaves the held elements
/// unchanged, so a full buffer fails every further addition until it is
/// consumed.
pub proof fn lemma_add_at_capacity_refused<T>(s: Seq<T>, cap: nat, element: T)
    requires
        s.len() == cap,
    ensures
        !add_accepted(s, cap, element),
        add_model(s, cap, element) == s,
{
}

/// A buffer manages a fixed amount of data.
///
/// The data are produced one at a time and consumed all at once.
pub trait Buffer<T>: Sized {
    /// The elements currently held, in insertion order.
    spec fn contents(&self) -> Seq<T>;

    /// The fixed maximum number of elements the buffer may hold.
    spec fn cap(&self) -> nat;

    /// Add the given element to the buffer if possible.
    ///
    /// Succeeds exactly when the buffer has room; on a full buffer it
    /// fails and hands the element back unchanged, leaving the buffer
    /// as it was.
    fn add(&mut self, element: T) -> (r: Result<(), BufferFullError<T>>)
        ensures
            final(self).cap() == old(self).cap(),
            final(self).contents() == add_model(old(self).contents(), old(self).cap(), element),
            r is Ok <==> add_accepted(old(self).contents(), old(self).cap(), element),
            r is Err ==> r == Err::<(), BufferFullError<T>>(BufferFullError(element)),
    ;

    /// Take and return all elements of the buffer.
    ///
    /// Returns the held elements in insertion order when there are any,
    /// and nothing when the buffer is empty; either way the buffer is
    /// empty afterwards and ready to accept elements again.
    fn consume(&mut self) -> (r: Option<Vec<T>>)
        ensures
            final(self).cap() == old(self).cap(),
            final(self).contents() == Seq::<T>::empty(),
            match r {
                Some(data) => old(self).contents().len() > 0 && data@ == old(self).contents(),
                None => old(self).contents().len() == 0,
            },
    ;

    /// Returns the number of elements currently in the buffer.
    fn used(&self) -> (n: usize)
        ensures
            n == self.contents().len(),
    ;

    /// Returns the maximum number of elements allowed in the buffer.
    fn capacity(&self) -> (n: usize)
        ensures
            n == self.cap(),
    ;
}

/// Buffer whose capacity is fixed at compile time.
pub struct StaticBuffer<T> {
    elements: Vec<T>,
}

impl<T> StaticBuffer<T> {
    /// The buffer never holds more elements than its capacity.
    #[verifier::type_invariant]
    spec fn wf(self) -> bool {
        self.elements@.len() <= BUFFER_SIZE
    }

    /// Constructs a new, empty buffer.
    pub fn new() -> (buffer: StaticBuffer<T>)
        ensures
            buffer.contents() == Seq::<T>::empty(),
            buffer.cap() == BUFFER_SIZE,
    {
        StaticBuffer { elements: Vec::new() }
    }
}

impl<T> Buffer<T> for StaticBuffer<T> {
    /// The elements currently held, in insertion order.
    closed spec fn contents(&self) -> Seq<T> {
        self.elements@
    }

    /// The capacity, fixed at compile time.
    open spec fn cap(&self) -> nat {
        BUFFER_SIZE as nat
    }

    fn add(&mut self, element: T) -> (r: Result<(), BufferFullError<T>>) {
        proof {
            use_type_invariant(&*self);
        }
        if self.elements.len() == BUFFER_SIZE {
            return Err(BufferFullError(element));
        }
        let mut elements: Vec<T> = Vec::new();
        core::mem::swap(&mut elements, &mut self.elements);
        elements.push(element);
        self.elements = elements;
        Ok(())
    }

    fn consume(&mut self) -> (r: Option<Vec<T>>) {
        if self.elements.len() == 0 {
            return None;
        }
        let mut data: Vec<T> = Vec::new();
        core::mem::swap(&mut data, &mut self.elements);
        Some(data)
    }

    fn used(&self) -> (n: usize) {
        self.elements.len()
    }

    fn capacity(&self) -> (n: usize) {
        BUFFER_SIZE
    }
}

} // verus!
