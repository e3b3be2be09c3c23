//! The write coordinator: a first-in-first-out queue of validated write
//! requests that a single applier drains in batches.

use crate::canvas::Canvas;
use crate::pixel::Pixel;
use vstd::prelude::*;

verus! {

/// The mathematical content of a write coordinator.
pub struct CoordinatorView {
    /// Width of the canvas the requests were validated against.
    pub width: nat,
    /// Height of that canvas.
    pub height: nat,
    /// Accepted requests that have not been handed to the applier yet, in
    /// arrival order.
    pub pending: Seq<Pixel>,
    /// No further request is accepted.
    pub closed: bool,
}

impl CoordinatorView {
    /// Every pending request targets a pixel of the canvas.
    pub open spec fn wf(self) -> bool {
        forall|i: int|
            0 <= i < self.pending.len() ==> (#[trigger] self.pending[i]).within(
                self.width,
                self.height,
            )
    }

    /// The queue after accepting `write`, or unchanged once closed.
    pub open spec fn enqueue(self, write: Pixel) -> CoordinatorView {
        if self.closed {
            self
        } else {
            CoordinatorView { pending: self.pending.push(write), ..self }
        }
    }

    /// The queue after its pending requests were handed out as one batch.
    pub open spec fn drained(self) -> CoordinatorView {
        CoordinatorView { pending: Seq::empty(), ..self }
    }

    /// The queue after it was closed to new requests.
    pub open spec fn close(self) -> CoordinatorView {
        CoordinatorView { closed: true, ..self }
    }

    /// The applier has nothing left to do, now or ever.
    pub open spec fn finished(self) -> bool {
        self.closed && self.pending.len() == 0
    }
}

/// A request arrived after the queue was closed.
#[derive(Clone, Copy, Debug, PartialEq, Eq, Structural)]
pub struct QueueClosed {}

/// What the applier does next.
#[derive(Debug)]
pub enum ApplierStep {
    /// Apply this batch to the canvas under one exclusive access, then ask
    /// again.
    Apply(Vec<Pixel>),
    /// Nothing is pending: block until a request arrives or the queue is
    /// closed, then ask again.
    Wait,
    /// The queue is closed and empty: stop.
    Stop,
}

/// The queue of accepted write requests.
pub struct WriteCoordinator {
    width: u32,
    height: u32,
    pending: Vec<Pixel>,
    closed: bool,
}

impl View for WriteCoordinator {
    type V = CoordinatorView;

    closed spec fn view(&self) -> CoordinatorView {
        CoordinatorView {
            width: self.width as nat,
            height: self.height as nat,
            pending: self.pending@,
            closed: self.closed,
        }
    }
}

impl WriteCoordinator {
    /// Every pending request targets a pixel of the canvas.
    pub open spec fn wf(&self) -> bool {
        self@.wf()
    }

    /// An open, empty queue for a `width` by `height` canvas.
    pub fn new(width: u32, height: u32) -> (queue: WriteCoordinator)
        ensures
            queue.wf(),
            queue@ == (CoordinatorView {
                width: width as nat,
                height: height as nat,
                pending: Seq::empty(),
                closed: false,
            }),
    {
        WriteCoordinator { width, height, pending: Vec::new(), closed: false }
    }

    /// Dimensions of the canvas that requests are validated against.
    pub fn dimensions(&self) -> (size: (u32, u32))
        ensures
            size.0 == self@.width,
            size.1 == self@.height,
    {
        (self.width, self.height)
    }

    /// Whether the queue has been closed.
    pub fn is_closed(&self) -> (closed: bool)
        ensures
            closed == self@.closed,
    {
        self.closed
    }

    /// Number of requests waiting for the applier.
    pub fn pending_len(&self) -> (n: usize)
        ensures
            n == self@.pending.len(),
    {
        self.pending.len()
    }

    /// Appends a validated request behind all earlier ones. Fails, and
    /// leaves the queue as it was, exactly when the queue is closed.
    pub fn enqueue(&mut self, write: Pixel) -> (accepted: Result<(), QueueClosed>)
        requires
            old(self).wf(),
            write.within(old(self)@.width, old(self)@.height),
        ensures
            final(self).wf(),
            final(self)@ == old(self)@.enqueue(write),
            accepted is Ok <==> !old(self)@.closed,
    {
        if self.closed {
            Err(QueueClosed {  })
        } else {
            self.pending.push(write);
            assert forall|i: int| 0 <= i < self@.pending.len() implies (#[trigger] self@.pending[i]).within(
                self@.width,
                self@.height,
            ) by {
                if i < old(self)@.pending.len() {
                    assert(self@.pending[i] == old(self)@.pending[i]);
                }
            }
            Ok(())
        }
    }

    /// Hands out every pending request as one batch, in arrival order, and
    /// leaves the queue empty. Requests that arrive later wait for the next
    /// batch.
    pub fn take_batch(&mut self) -> (batch: Vec<Pixel>)
        requires
            old(self).wf(),
        ensures
            final(self).wf(),
            final(self)@ == old(self)@.drained(),
            batch@ == old(self)@.pending,
    {
        let mut batch: Vec<Pixel> = Vec::new();
        std::mem::swap(&mut batch, &mut self.pending);
        batch
    }

    /// Stops accepting requests. What is pending stays pending.
    pub fn close(&mut self)
        ensures
            final(self)@ == old(self)@.close(),
            old(self).wf() ==> final(self).wf(),
    {
        self.closed = true;
        assert(self@.pending == old(self)@.pending);
    }

    /// Decides what the applier does next: apply everything that is
    /// pending, wait for more, or stop once the queue is closed and empty.
    pub fn next_step(&mut self) -> (step: ApplierStep)
        requires
            old(self).wf(),
        ensures
            final(self).wf(),
            final(self)@ == old(self)@.drained(),
            match step {
                ApplierStep::Apply(batch) => batch@ == old(self)@.pending && batch@.len() > 0,
                ApplierStep::Wait => old(self)@.pending.len() == 0 && !old(self)@.closed,
                ApplierStep::Stop => old(self)@.finished(),
            },
    {
        if self.pending.len() > 0 {
            ApplierStep::Apply(self.take_batch())
        } else if self.closed {
            assert(self@.pending =~= Seq::empty());
            ApplierStep::Stop
        } else {
            assert(self@.pending =~= Seq::empty());
            ApplierStep::Wait
        }
    }

    /// Applies everything that is pending to `canvas` as one batch, in
    /// arrival order, and leaves the queue empty.
    pub fn drain_into(&mut self, canvas: &mut Canvas)
        requires
            old(self).wf(),
            old(canvas).wf(),
            old(canvas)@.width == old(self)@.width,
            old(canvas)@.height == old(self)@.height,
        ensures
            final(self).wf(),
            final(self)@ == old(self)@.drained(),
            final(canvas).wf(),
            final(canvas)@ == old(canvas)@.apply_all(old(self)@.pending),
    {
        let batch = self.take_batch();
        canvas.apply_batch(&batch);
    }
}

} // verus!
