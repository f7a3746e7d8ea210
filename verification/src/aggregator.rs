//! The batching of draws.
//!
//! Every pixel that a connection submits passes through one aggregator on
//! its way to the canvas. The aggregator collects pixels in a batch and says
//! when the batch is due; flushing draws the whole batch in one go, so that
//! the canvas is taken for writing once for a batch and not once for a
//! pixel. Waiting for pixels, reading the clock and taking the canvas are
//! the caller's.

use vstd::prelude::*;
use crate::grid::{draw_batch, drawn_each, lemma_drawn_each_concat, Grid};
use crate::pixel::Pixel;

verus! {

/// The capacity of the draw queue, and the batch size above which a batch is
/// due, where no other is configured.
pub const PIXEL_BUFFER: usize = 1024;

/// The time since the last flush, in microseconds, above which a batch is
/// due, where no other is configured.
pub const FLUSH_MICROS: u128 = 900;

/// Whether a batch of `pending` pixels is due, `elapsed` microseconds after
/// the last flush: it holds a pixel, and it holds more than `limit` pixels or
/// more than `interval` microseconds have passed.
pub open spec fn flush_due(pending: nat, limit: nat, elapsed: nat, interval: nat) -> bool {
    pending > 0 && (pending > limit || elapsed > interval)
}

/// The pixels that wait for the next flush, and when a batch is due.
pub struct Aggregator {
    batch: Vec<Pixel>,
    limit: usize,
    interval: u128,
}

impl Aggregator {
    /// The pixels that wait for the next flush, in the order in which they
    /// were added.
    pub closed spec fn pending(&self) -> Seq<Pixel> {
        self.batch@
    }

    /// The batch size above which a batch is due.
    pub closed spec fn limit(&self) -> nat {
        self.limit as nat
    }

    /// The time since the last flush, in microseconds, above which a batch
    /// is due.
    pub closed spec fn interval(&self) -> nat {
        self.interval as nat
    }

    /// An aggregator with an empty batch, which is due above `limit` pixels
    /// or `interval` microseconds.
    pub fn new(limit: usize, interval: u128) -> (aggregator: Aggregator)
        ensures
            aggregator.pending() == Seq::<Pixel>::empty(),
            aggregator.limit() == limit,
            aggregator.interval() == interval,
    {
        Aggregator { batch: Vec::new(), limit, interval }
    }

    /// The number of pixels that wait for the next flush.
    pub fn len(&self) -> (n: usize)
        ensures
            n == self.pending().len(),
    {
        self.batch.len()
    }

    /// Adds `pixel` at the end of the batch.
    pub fn add(&mut self, pixel: Pixel)
        ensures
            final(self).pending() == old(self).pending().push(pixel),
            final(self).limit() == old(self).limit(),
            final(self).interval() == old(self).interval(),
    {
        self.batch.push(pixel);
    }

    /// Whether the batch is due, `elapsed` microseconds after the last
    /// flush.
    pub fn is_due(&self, elapsed: u128) -> (due: bool)
        ensures
            due == flush_due(
                self.pending().len(),
                self.limit(),
                elapsed as nat,
                self.interval(),
            ),
    {
        let n: usize = self.batch.len();
        n > 0 && (n > self.limit || elapsed > self.interval)
    }

    /// How long to wait for the next pixel, in microseconds: without end
    /// while no pixel waits in the batch, and no longer than the interval
    /// while one does, so that a batch is not kept beyond its time when no
    /// further pixel comes.
    pub fn max_wait(&self) -> (wait: Option<u128>)
        ensures
            match wait {
                Some(micros) => self.pending().len() > 0 && micros == self.interval(),
                None => self.pending().len() == 0,
            },
    {
        if self.batch.len() == 0 {
            None
        } else {
            Some(self.interval)
        }
    }

    /// Takes what came from the queue: a pixel, which is added to the batch,
    /// or nothing. Says whether the batch is due after that, `elapsed`
    /// microseconds after the last flush.
    pub fn receive(&mut self, item: Option<Pixel>, elapsed: u128) -> (due: bool)
        ensures
            final(self).pending() == match item {
                Some(pixel) => old(self).pending().push(pixel),
                None => old(self).pending(),
            },
            final(self).limit() == old(self).limit(),
            final(self).interval() == old(self).interval(),
            due == flush_due(
                final(self).pending().len(),
                final(self).limit(),
                elapsed as nat,
                final(self).interval(),
            ),
    {
        if let Some(pixel) = item {
            self.add(pixel);
        }
        self.is_due(elapsed)
    }

    /// Draws the batch on `grid`, each pixel once and in the order in which
    /// the pixels were added, and empties the batch.
    pub fn flush<G: Grid>(&mut self, grid: &mut G)
        ensures
            drawn_each(old(grid), old(self).pending(), final(grid)),
            final(self).pending() == Seq::<Pixel>::empty(),
            final(self).limit() == old(self).limit(),
            final(self).interval() == old(self).interval(),
    {
        draw_batch(grid, self.batch.as_slice());
        self.batch.clear();
    }
}

impl Default for Aggregator {
    /// An aggregator with an empty batch, which is due above `PIXEL_BUFFER`
    /// pixels or `FLUSH_MICROS` microseconds.
    fn default() -> (aggregator: Aggregator)
        ensures
            aggregator.pending() == Seq::<Pixel>::empty(),
            aggregator.limit() == PIXEL_BUFFER,
            aggregator.interval() == FLUSH_MICROS,
    {
        Aggregator::new(PIXEL_BUFFER, FLUSH_MICROS)
    }
}


/// One thing that happens to an aggregator: a pixel is added to the batch,
/// or the batch is flushed.
pub enum Event {
    Add(Pixel),
    Flush,
}

/// The pixels that `events` add, in order.
pub open spec fn added(events: Seq<Event>) -> Seq<Pixel>
    decreases events.len(),
{
    if events.len() == 0 {
        Seq::empty()
    } else {
        match events.last() {
            Event::Add(pixel) => added(events.drop_last()).push(pixel),
            Event::Flush => added(events.drop_last()),
        }
    }
}

/// The pixels that wait in the batch after `events`, on an aggregator that
/// began with an empty batch: those added since the last flush.
pub open spec fn waiting(events: Seq<Event>) -> Seq<Pixel>
    decreases events.len(),
{
    if events.len() == 0 {
        Seq::empty()
    } else {
        match events.last() {
            Event::Add(pixel) => waiting(events.drop_last()).push(pixel),
            Event::Flush => Seq::empty(),
        }
    }
}

/// The pixels that `events` have flushed: those added before the last flush.
pub open spec fn flushed(events: Seq<Event>) -> Seq<Pixel>
    decreases events.len(),
{
    if events.len() == 0 {
        Seq::empty()
    } else {
        match events.last() {
            Event::Add(pixel) => flushed(events.drop_last()),
            Event::Flush => added(events.drop_last()),
        }
    }
}

/// Whether `events`, on an aggregator that began with an empty batch and
/// flushes onto a canvas that began as `before`, can leave the canvas as
/// `after`: adding a pixel leaves the canvas alone, and a flush draws the
/// batch as `Aggregator::flush` does.
pub open spec fn ran<G: Grid>(before: &G, events: Seq<Event>, after: &G) -> bool
    decreases events.len(),
{
    if events.len() == 0 {
        *after == *before
    } else {
        match events.last() {
            Event::Add(pixel) => ran(before, events.drop_last(), after),
            Event::Flush => exists|mid: G|
                ran(before, events.drop_last(), &mid) && #[trigger] drawn_each(
                    &mid,
                    waiting(events.drop_last()),
                    after,
                ),
        }
    }
}

/// Every pixel that was added has been flushed or waits in the batch, and
/// the order of submission is kept: none is lost, none is there twice.
pub proof fn lemma_added_is_flushed_or_waiting(events: Seq<Event>)
    ensures
        flushed(events) + waiting(events) == added(events),
    decreases events.len(),
{
    if events.len() > 0 {
        lemma_added_is_flushed_or_waiting(events.drop_last());
    }
}

/// However the pixels that were added are cut into batches, the canvas has
/// been drawn on with exactly the pixels added before the last flush, each
/// once and in the order of submission.
pub proof fn lemma_flushes_draw_what_was_added<G: Grid>(before: &G, events: Seq<Event>, after: &G)
    requires
        ran(before, events, after),
    ensures
        drawn_each(before, flushed(events), after),
    decreases events.len(),
{
    if events.len() > 0 {
        let front = events.drop_last();
        match events.last() {
            Event::Add(pixel) => {
                lemma_flushes_draw_what_was_added(before, front, after);
            },
            Event::Flush => {
                let mid = choose|mid: G|
                    ran(before, front, &mid) && #[trigger] drawn_each(&mid, waiting(front), after);
                lemma_flushes_draw_what_was_added(before, front, &mid);
                lemma_drawn_each_concat(before, flushed(front), &mid, waiting(front), after);
                lemma_added_is_flushed_or_waiting(front);
            },
        }
    }
}

} // verus!
