//! The canvas service: what a transport layer calls to read the canvas and
//! to submit pixel writes, and the rules that tie the canvas, the write
//! coordinator and the encoding cache together.

use crate::cache::{read_at, served, EncodingCache};
use crate::canvas::{Canvas, CanvasView, EncodeError};
use crate::coordinator::{CoordinatorView, WriteCoordinator};
use crate::pixel::Pixel;
use vstd::prelude::*;

verus! {

/// Why a pixel write was not accepted.
#[derive(Clone, Copy, Debug, PartialEq, Eq, Structural)]
pub enum SubmitError {
    /// The pixel lies outside the `width` by `height` drawing area.
    OutsideDrawingArea { width: u32, height: u32 },
    /// The write coordinator no longer accepts requests.
    Closed,
}

impl SubmitError {
    /// A human-readable reason for the rejection.
    pub fn message(&self) -> (text: &'static str)
        ensures
            text@ == match *self {
                SubmitError::OutsideDrawingArea { .. } => "pixel outside of drawing area"@,
                SubmitError::Closed => "canvas is shutting down"@,
            },
    {
        match self {
            SubmitError::OutsideDrawingArea { .. } => "pixel outside of drawing area",
            SubmitError::Closed => "canvas is shutting down",
        }
    }
}

/// An encoded image, with what the transport layer must say about it.
#[derive(Debug)]
pub struct ImageReply {
    /// The PNG file.
    pub body: Vec<u8>,
    /// Media type of `body`.
    pub content_type: &'static str,
    /// Caching directive for intermediaries: they must not keep the reply,
    /// because freshness is decided by the encoding cache alone.
    pub cache_control: &'static str,
}

impl ImageReply {
    /// Wraps a PNG file in a reply that intermediaries must not store.
    pub fn new(body: Vec<u8>) -> (reply: ImageReply)
        ensures
            reply.body == body,
            reply.content_type@ == "image/png"@,
            reply.cache_control@ == "no-store"@,
    {
        ImageReply { body, content_type: "image/png", cache_control: "no-store" }
    }
}

/// The body of a read result, as a model value.
pub open spec fn reply_body(result: Result<ImageReply, EncodeError>) -> Option<Seq<u8>> {
    match result {
        Ok(reply) => Some(reply.body@),
        Err(_) => None,
    }
}

/// Status code for the outcome of a pixel submission: 204 when the write
/// was queued, 400 when it lies outside the drawing area, 503 when the
/// coordinator is closed.
pub fn submit_status(outcome: &Result<(), SubmitError>) -> (code: u16)
    ensures
        code == match *outcome {
            Ok(_) => 204u16,
            Err(SubmitError::OutsideDrawingArea { .. }) => 400u16,
            Err(SubmitError::Closed) => 503u16,
        },
{
    match outcome {
        Ok(_) => 204,
        Err(SubmitError::OutsideDrawingArea { .. }) => 400,
        Err(SubmitError::Closed) => 503,
    }
}

/// Status code for the outcome of a canvas read: 200 with the image, 500
/// when the canvas could not be encoded.
pub fn read_status(outcome: &Result<ImageReply, EncodeError>) -> (code: u16)
    ensures
        code == (if outcome is Ok {
            200u16
        } else {
            500u16
        }),
{
    match outcome {
        Ok(_) => 200,
        Err(_) => 500,
    }
}

/// The outcome that a submission of `request` to `queue` is owed.
pub open spec fn submit_outcome(queue: CoordinatorView, request: Pixel) -> Result<
    (),
    SubmitError,
> {
    if !request.within(queue.width, queue.height) {
        Err(
            SubmitError::OutsideDrawingArea {
                width: queue.width as u32,
                height: queue.height as u32,
            },
        )
    } else if queue.closed {
        Err(SubmitError::Closed)
    } else {
        Ok(())
    }
}

/// Validates `request` against the drawing area and, if it lies inside,
/// queues it behind all earlier writes. A rejected request never enters
/// the queue. Acceptance means queued, not yet applied.
pub fn submit_pixel(queue: &mut WriteCoordinator, request: Pixel) -> (outcome: Result<
    (),
    SubmitError,
>)
    requires
        old(queue).wf(),
    ensures
        final(queue).wf(),
        outcome == submit_outcome(old(queue)@, request),
        final(queue)@ == (if outcome is Ok {
            old(queue)@.enqueue(request)
        } else {
            old(queue)@
        }),
{
    let (width, height) = queue.dimensions();
    if request.x >= width || request.y >= height {
        return Err(SubmitError::OutsideDrawingArea { width, height });
    }
    match queue.enqueue(request) {
        Ok(_) => Ok(()),
        Err(_) => Err(SubmitError::Closed),
    }
}

/// Answers a read when the cached encoding, if any, is `age_nanos` old.
/// A fresh cached encoding is served as it is; otherwise `canvas` is
/// encoded, cached and served. Every reply forbids intermediaries to store
/// it.
pub fn read_canvas_at_age(cache: &mut EncodingCache, canvas: &Canvas, age_nanos: u128) -> (result:
    Result<ImageReply, EncodeError>)
    requires
        canvas.wf(),
    ensures
        (reply_body(result), final(cache)@) == read_at(
            old(cache)@,
            age_nanos as nat,
            canvas@.png(),
        ),
        result is Err ==> *final(cache) == *old(cache),
        result matches Ok(reply) ==> reply.content_type@ == "image/png"@ && reply.cache_control@
            == "no-store"@,
{
    match cache.get_or_encode_at_age(canvas, age_nanos) {
        Ok(bytes) => Ok(ImageReply::new(bytes)),
        Err(e) => Err(e),
    }
}

/// Answers a read by the clock: the cached encoding if it is still fresh,
/// else a new encoding of `canvas`, which is then cached. Whatever the
/// clock says, the body is either the cached bytes or the encoding of the
/// canvas as it is now; an empty cache always leads to a new encoding.
pub fn read_canvas(cache: &mut EncodingCache, canvas: &Canvas) -> (result: Result<
    ImageReply,
    EncodeError,
>)
    requires
        canvas.wf(),
    ensures
        match result {
            Ok(reply) => {
                &&& reply.content_type@ == "image/png"@
                &&& reply.cache_control@ == "no-store"@
                &&& {
                    ||| old(cache)@ == Some(reply.body@) && final(cache)@ == old(cache)@
                    ||| canvas@.png() == Some(reply.body@) && final(cache)@ == Some(reply.body@)
                }
            },
            Err(_) => canvas@.png() is None && *final(cache) == *old(cache),
        },
        old(cache)@ is None ==> (reply_body(result), final(cache)@) == (
            canvas@.png(),
            canvas@.png(),
        ),
{
    let age = cache.age_nanos();
    read_canvas_at_age(cache, canvas, age)
}

/// Something that happens to a canvas service.
pub enum Event {
    /// A client submits a pixel write.
    Submit(Pixel),
    /// The applier applies everything that is pending as one batch.
    ApplyPending,
    /// A client reads the canvas while the cached encoding has this age in
    /// nanoseconds.
    Read(nat),
    /// The write coordinator is closed to new requests.
    Close,
}

/// The mathematical content of a canvas service.
pub struct ServiceView {
    pub canvas: CanvasView,
    pub queue: CoordinatorView,
    pub cached: Option<Seq<u8>>,
}

impl ServiceView {
    /// The parts are well formed and the queue validates against the
    /// dimensions of the canvas.
    pub open spec fn wf(self) -> bool {
        &&& self.canvas.wf()
        &&& self.queue.wf()
        &&& self.queue.width == self.canvas.width
        &&& self.queue.height == self.canvas.height
    }

    /// `request` would be queued: it lies inside the drawing area and the
    /// coordinator is open.
    pub open spec fn accepts(self, request: Pixel) -> bool {
        submit_outcome(self.queue, request) is Ok
    }

    /// The service after `request` was submitted.
    pub open spec fn submit(self, request: Pixel) -> ServiceView {
        if self.accepts(request) {
            ServiceView { queue: self.queue.enqueue(request), ..self }
        } else {
            self
        }
    }

    /// The service after the applier applied one batch.
    pub open spec fn apply_pending(self) -> ServiceView {
        ServiceView {
            canvas: self.canvas.apply_all(self.queue.pending),
            queue: self.queue.drained(),
            ..self
        }
    }

    /// The service after a read at the given age of the cached encoding.
    pub open spec fn read(self, age_nanos: nat) -> ServiceView {
        ServiceView { cached: read_at(self.cached, age_nanos, self.canvas.png()).1, ..self }
    }

    /// The service after the coordinator was closed.
    pub open spec fn close(self) -> ServiceView {
        ServiceView { queue: self.queue.close(), ..self }
    }

    /// The canvas that is persisted at shutdown: the coordinator is closed
    /// and drained first.
    pub open spec fn shut_down(self) -> CanvasView {
        self.close().apply_pending().canvas
    }

    /// The service after one event.
    pub open spec fn step(self, event: Event) -> ServiceView {
        match event {
            Event::Submit(request) => self.submit(request),
            Event::ApplyPending => self.apply_pending(),
            Event::Read(age_nanos) => self.read(age_nanos),
            Event::Close => self.close(),
        }
    }

    /// The service after a history of events, first to last.
    pub open spec fn run(self, events: Seq<Event>) -> ServiceView
        decreases events.len(),
    {
        if events.len() == 0 {
            self
        } else {
            self.run(events.drop_last()).step(events.last())
        }
    }

    /// The writes that were accepted during a history of events, in the
    /// order of their acceptance.
    pub open spec fn accepted(self, events: Seq<Event>) -> Seq<Pixel>
        decreases events.len(),
    {
        if events.len() == 0 {
            Seq::empty()
        } else {
            let earlier = self.accepted(events.drop_last());
            match events.last() {
                Event::Submit(request) => if self.run(events.drop_last()).accepts(request) {
                    earlier.push(request)
                } else {
                    earlier
                },
                _ => earlier,
            }
        }
    }
}

impl ServiceView {
    /// Every event keeps the service well formed and the dimensions of the
    /// canvas as they were.
    pub proof fn lemma_step_keeps_shape(self, event: Event)
        requires
            self.wf(),
        ensures
            self.step(event).wf(),
            self.step(event).canvas.width == self.canvas.width,
            self.step(event).canvas.height == self.canvas.height,
    {
        match event {
            Event::Submit(request) => {
                if self.accepts(request) {
                    let after = self.queue.enqueue(request);
                    assert forall|i: int| 0 <= i < after.pending.len() implies (
                    #[trigger] after.pending[i]).within(after.width, after.height) by {
                        if i < self.queue.pending.len() {
                            assert(after.pending[i] == self.queue.pending[i]);
                        }
                    }
                }
            },
            Event::ApplyPending => {
                self.canvas.lemma_apply_all_shape(self.queue.pending);
            },
            Event::Read(_) => {},
            Event::Close => {},
        }
    }

    /// The dimensions of the canvas never change, whatever happens.
    pub proof fn lemma_run_keeps_shape(self, events: Seq<Event>)
        requires
            self.wf(),
        ensures
            self.run(events).wf(),
            self.run(events).canvas.width == self.canvas.width,
            self.run(events).canvas.height == self.canvas.height,
        decreases events.len(),
    {
        if events.len() > 0 {
            self.lemma_run_keeps_shape(events.drop_last());
            self.run(events.drop_last()).lemma_step_keeps_shape(events.last());
        }
    }

    /// A rejected submission changes nothing, neither the canvas nor the
    /// queue; a submission inside the drawing area of an open service is
    /// accepted and changes the queue alone.
    pub proof fn lemma_submit_validates(self, request: Pixel)
        ensures
            !request.within(self.canvas.width, self.canvas.height) && self.wf() ==> !self.accepts(
                request,
            ),
            !self.accepts(request) ==> self.submit(request) == self,
            request.within(self.canvas.width, self.canvas.height) && self.wf()
                && !self.queue.closed ==> self.accepts(request),
            self.submit(request).canvas == self.canvas,
    {
    }

    /// Once every accepted write has been applied, the canvas is the
    /// canvas from before the history with what was pending then and every
    /// write accepted since applied in arrival order. In particular this
    /// is the canvas that is persisted at shutdown.
    pub proof fn lemma_shutdown_reflects_every_accepted_write(self, events: Seq<Event>)
        requires
            self.wf(),
        ensures
            self.run(events).shut_down() == self.canvas.apply_all(
                self.queue.pending + self.accepted(events),
            ),
        decreases events.len(),
    {
        if events.len() == 0 {
            assert(self.queue.pending + self.accepted(events) == self.queue.pending);
        } else {
            let before = self.run(events.drop_last());
            let earlier = self.accepted(events.drop_last());
            self.lemma_shutdown_reflects_every_accepted_write(events.drop_last());
            match events.last() {
                Event::Submit(request) => {
                    if before.accepts(request) {
                        let pending = before.queue.pending;
                        assert(pending.push(request).drop_last() == pending);
                        assert((self.queue.pending + earlier).push(request) == self.queue.pending
                            + earlier.push(request));
                        assert((self.queue.pending + earlier).push(request).drop_last()
                            == self.queue.pending + earlier);
                    }
                },
                Event::ApplyPending => {
                    let done = before.apply_pending();
                    assert(done.queue.pending.len() == 0);
                },
                Event::Read(_) => {},
                Event::Close => {},
            }
        }
    }

    /// Writes to distinct pixels, submitted in any order to an open service
    /// with nothing pending and then applied, all land: each targeted pixel
    /// shows the whole colour of its one request, and every other pixel is
    /// unchanged.
    pub proof fn lemma_distinct_writes_all_visible(self, writes: Seq<Pixel>)
        requires
            self.wf(),
            !self.queue.closed,
            self.queue.pending.len() == 0,
            self.canvas.admits(writes),
            CanvasView::distinct_places(writes),
        ensures
            self.run(writes.map(|i: int, write: Pixel| Event::Submit(write))).queue.pending
                == writes,
            ({
                let after = self.run(
                    writes.map(|i: int, write: Pixel| Event::Submit(write)),
                ).apply_pending().canvas;
                &&& forall|i: int|
                    0 <= i < writes.len() ==> after.pixel(
                        (#[trigger] writes[i]).x as int,
                        writes[i].y as int,
                    ) == writes[i].color()
                &&& forall|x: int, y: int|
                    self.canvas.contains(x, y) && (forall|j: int|
                        0 <= j < writes.len() ==> !((#[trigger] writes[j]).x == x && writes[j].y
                            == y)) ==> #[trigger] after.pixel(x, y) == self.canvas.pixel(x, y)
            }),
    {
        self.lemma_submits_queue_in_order(writes);
        assert(self.queue.pending + writes == writes);
        self.canvas.lemma_distinct_writes_all_land(writes);
    }

    /// Submitting valid writes to an open service queues them behind what
    /// is pending, in the order of submission, and touches nothing else.
    pub proof fn lemma_submits_queue_in_order(self, writes: Seq<Pixel>)
        requires
            self.wf(),
            !self.queue.closed,
            self.canvas.admits(writes),
        ensures
            self.run(writes.map(|i: int, write: Pixel| Event::Submit(write))).queue.pending
                == self.queue.pending + writes,
            self.run(writes.map(|i: int, write: Pixel| Event::Submit(write))).canvas
                == self.canvas,
            !self.run(writes.map(|i: int, write: Pixel| Event::Submit(write))).queue.closed,
        decreases writes.len(),
    {
        let events = writes.map(|i: int, write: Pixel| Event::Submit(write));
        if writes.len() == 0 {
            assert(self.queue.pending + writes == self.queue.pending);
        } else {
            let earlier = writes.drop_last().map(|i: int, write: Pixel| Event::Submit(write));
            assert(events.drop_last() == earlier);
            assert(self.canvas.admits(writes.drop_last())) by {
                assert forall|i: int| 0 <= i < writes.drop_last().len() implies (
                #[trigger] writes.drop_last()[i]).within(self.canvas.width, self.canvas.height) by {
                    assert(writes.drop_last()[i] == writes[i]);
                }
            }
            self.lemma_submits_queue_in_order(writes.drop_last());
            self.lemma_run_keeps_shape(earlier);
            assert(events.last() == Event::Submit(writes.last()));
            assert(writes.last() == writes[writes.len() - 1]);
            assert((self.queue.pending + writes.drop_last()).push(writes.last())
                == self.queue.pending + writes);
        }
    }

    /// Last write wins: when two writes to the same pixel are submitted one
    /// after the other to an open service and both are applied, the pixel
    /// shows the colour of the second.
    pub proof fn lemma_same_pixel_last_write_wins(self, first: Pixel, second: Pixel)
        requires
            self.wf(),
            !self.queue.closed,
            first.within(self.canvas.width, self.canvas.height),
            second.within(self.canvas.width, self.canvas.height),
            first.same_place(second),
        ensures
            self.submit(first).submit(second).apply_pending().canvas.pixel(
                first.x as int,
                first.y as int,
            ) == second.color(),
            self.submit(first).apply_pending().submit(second).apply_pending().canvas.pixel(
                first.x as int,
                first.y as int,
            ) == second.color(),
    {
        let queued = self.submit(first).submit(second);
        self.lemma_step_keeps_shape(Event::Submit(first));
        self.submit(first).lemma_step_keeps_shape(Event::Submit(second));
        let pending = queued.queue.pending;
        assert(pending == self.queue.pending.push(first).push(second));
        self.canvas.lemma_last_write_wins(pending, pending.len() - 1);

        let applied = self.submit(first).apply_pending();
        self.submit(first).lemma_step_keeps_shape(Event::ApplyPending);
        applied.lemma_step_keeps_shape(Event::Submit(second));
        let rest = applied.submit(second).queue.pending;
        assert(rest == Seq::<Pixel>::empty().push(second));
        applied.canvas.lemma_last_write_wins(rest, 0);
    }
}

/// A canvas with its write coordinator and its encoding cache, owned by
/// one caller.
pub struct CanvasService {
    canvas: Canvas,
    queue: WriteCoordinator,
    cache: EncodingCache,
}

impl View for CanvasService {
    type V = ServiceView;

    closed spec fn view(&self) -> ServiceView {
        ServiceView { canvas: self.canvas@, queue: self.queue@, cached: self.cache@ }
    }
}

impl CanvasService {
    /// The parts are well formed and agree on the dimensions.
    pub open spec fn wf(&self) -> bool {
        self@.wf()
    }

    /// A service for `canvas`, open, with nothing pending and nothing
    /// cached.
    pub fn new(canvas: Canvas) -> (service: CanvasService)
        requires
            canvas.wf(),
        ensures
            service.wf(),
            service@.canvas == canvas@,
            service@.queue.pending.len() == 0,
            !service@.queue.closed,
            service@.cached is None,
    {
        let (width, height) = canvas.dimensions();
        CanvasService {
            canvas,
            queue: WriteCoordinator::new(width, height),
            cache: EncodingCache::new(),
        }
    }

    /// Width and height of the canvas, fixed for the life of the service.
    pub fn dimensions(&self) -> (size: (u32, u32))
        ensures
            size.0 == self@.canvas.width,
            size.1 == self@.canvas.height,
    {
        self.canvas.dimensions()
    }

    /// The canvas as it is now, without the writes that are still pending.
    pub fn canvas(&self) -> (canvas: &Canvas)
        ensures
            canvas@ == self@.canvas,
            self.wf() ==> canvas.wf(),
    {
        &self.canvas
    }

    /// Number of accepted writes that have not been applied yet.
    pub fn pending_len(&self) -> (n: usize)
        ensures
            n == self@.queue.pending.len(),
    {
        self.queue.pending_len()
    }

    /// Submits a pixel write. A request outside the drawing area is
    /// rejected and changes nothing; so is any request once the service is
    /// closed. An accepted request is queued, and the canvas is not touched
    /// until the queue is applied.
    pub fn submit_pixel(&mut self, request: Pixel) -> (outcome: Result<(), SubmitError>)
        requires
            old(self).wf(),
        ensures
            final(self).wf(),
            outcome == submit_outcome(old(self)@.queue, request),
            final(self)@ == old(self)@.submit(request),
    {
        submit_pixel(&mut self.queue, request)
    }

    /// Applies every pending write to the canvas as one batch, in arrival
    /// order.
    pub fn apply_pending(&mut self)
        requires
            old(self).wf(),
        ensures
            final(self).wf(),
            final(self)@ == old(self)@.apply_pending(),
    {
        proof {
            self@.canvas.lemma_apply_all_shape(self@.queue.pending);
        }
        self.queue.drain_into(&mut self.canvas);
    }

    /// Answers a read when the cached encoding, if any, is `age_nanos` old.
    pub fn read_canvas_at_age(&mut self, age_nanos: u128) -> (result: Result<
        ImageReply,
        EncodeError,
    >)
        requires
            old(self).wf(),
        ensures
            final(self).wf(),
            final(self)@ == old(self)@.read(age_nanos as nat),
            reply_body(result) == read_at(
                old(self)@.cached,
                age_nanos as nat,
                old(self)@.canvas.png(),
            ).0,
            result matches Ok(reply) ==> reply.content_type@ == "image/png"@
                && reply.cache_control@ == "no-store"@,
    {
        read_canvas_at_age(&mut self.cache, &self.canvas, age_nanos)
    }

    /// Answers a read by the clock. Neither the canvas nor the queue
    /// changes; the body is the cached encoding or the encoding of the
    /// canvas as it is now.
    pub fn read_canvas(&mut self) -> (result: Result<ImageReply, EncodeError>)
        requires
            old(self).wf(),
        ensures
            final(self).wf(),
            final(self)@.canvas == old(self)@.canvas,
            final(self)@.queue == old(self)@.queue,
            match result {
                Ok(reply) => {
                    &&& reply.content_type@ == "image/png"@
                    &&& reply.cache_control@ == "no-store"@
                    &&& {
                        ||| old(self)@.cached == Some(reply.body@) && final(self)@.cached == old(
                            self,
                        )@.cached
                        ||| old(self)@.canvas.png() == Some(reply.body@) && final(self)@.cached
                            == Some(reply.body@)
                    }
                },
                Err(_) => old(self)@.canvas.png() is None && final(self)@.cached == old(
                    self,
                )@.cached,
            },
            old(self)@.cached is None ==> reply_body(result) == old(self)@.canvas.png(),
    {
        read_canvas(&mut self.cache, &self.canvas)
    }

    /// Stops accepting writes. What is pending stays pending.
    pub fn close(&mut self)
        requires
            old(self).wf(),
        ensures
            final(self).wf(),
            final(self)@ == old(self)@.close(),
    {
        self.queue.close();
    }

    /// Shuts the service down: closes the coordinator, applies every write
    /// that is still pending, and gives up the canvas to be persisted.
    pub fn shut_down(self) -> (canvas: Canvas)
        requires
            self.wf(),
        ensures
            canvas.wf(),
            canvas@ == self@.shut_down(),
    {
        let mut service = self;
        service.close();
        service.apply_pending();
        service.canvas
    }
}

} // verus!
