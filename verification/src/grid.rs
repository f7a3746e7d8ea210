//! The canvas a server draws on, and its size.

use vstd::prelude::*;
use crate::number::{decimal_digits, push_decimal};
use crate::pixel::{Coordinate, Pixel};

verus! {

/// The size of a grid: `x` columns by `y` rows, so that the coordinates with
/// `0 <= x < size.x` and `0 <= y < size.y` can be drawn on it.
#[derive(Copy, Clone, PartialEq, Eq, Structural, Hash, Debug)]
pub struct Size {
    pub x: usize,
    pub y: usize,
}

impl Size {
    /// Creates a new Size for the given x and y values.
    pub fn new(x: usize, y: usize) -> (size: Size)
        ensures
            size == (Size { x, y }),
    {
        Size { x, y }
    }

    /// Returns the x value.
    pub fn x(&self) -> (x: usize)
        ensures
            x == self.x,
    {
        self.x
    }

    /// Returns the y value.
    pub fn y(&self) -> (y: usize)
        ensures
            y == self.y,
    {
        self.y
    }

    /// The size as the protocol writes it: `SIZE`, then width and height in
    /// decimal, one blank between each two.
    pub open spec fn text(self) -> Seq<char> {
        seq!['S', 'I', 'Z', 'E', ' '] + decimal_digits(self.x as nat) + seq![' '] + decimal_digits(
            self.y as nat,
        )
    }

    /// Writes the size at the end of `out`.
    pub fn push_text(&self, out: &mut String)
        ensures
            final(out)@ == old(out)@ + self.text(),
    {
        proof {
            reveal_strlit("SIZE ");
            reveal_strlit(" ");
        }
        out.append("SIZE ");
        push_decimal(out, self.x as u64);
        out.append(" ");
        push_decimal(out, self.y as u64);
    }

    /// The size as the protocol writes it.
    pub fn to_string(&self) -> (text: String)
        ensures
            text@ == self.text(),
    {
        let mut text = String::new();
        self.push_text(&mut text);
        text
    }
}

/// A canvas that pixels are drawn on: the one thing an embedder supplies.
///
/// The three spec functions say what an implementation promises of its
/// answers, so that the library can state which calls it makes and what it
/// does with what comes back. As they stand they promise nothing: a canvas
/// that clips, ignores or only prints a pixel is a `Grid` too. A verified
/// implementation states its own promises by overriding them.
pub trait Grid {
    /// Whether `size` may report `size` for this canvas.
    open spec fn measures(&self, size: Size) -> bool {
        true
    }

    /// Whether `fetch` may report `found` for `p` on this canvas.
    open spec fn shows(&self, p: Coordinate, found: Option<Pixel>) -> bool {
        true
    }

    /// Whether `after` may be this canvas right after `px` was drawn on it.
    open spec fn drawn(&self, px: Pixel, after: &Self) -> bool {
        true
    }

    /// Returns the Size of this Grid.
    fn size(&self) -> (size: Size)
        ensures
            self.measures(size),
    ;

    /// Draw the given Pixel on the Grid.
    fn draw(&mut self, px: &Pixel)
        ensures
            old(self).drawn(*px, final(self)),
    ;

    /// Fetch the current status of the Pixel for the given Coordinate.
    /// Returns None if no such Pixel exists.
    fn fetch(&self, p: Coordinate) -> (found: Option<Pixel>)
        ensures
            self.shows(p, found),
    ;
}

/// Whether drawing the pixels of `batch` on `before`, one `draw` each and in
/// order, can leave the canvas as `after`.
pub open spec fn drawn_each<G: Grid>(before: &G, batch: Seq<Pixel>, after: &G) -> bool
    decreases batch.len(),
{
    if batch.len() == 0 {
        *after == *before
    } else {
        exists|mid: G|
            drawn_each(before, batch.drop_last(), &mid) && #[trigger] mid.drawn(
                batch.last(),
                after,
            )
    }
}

/// Draws the pixels of `batch` on `grid`, in order, with one call of `draw`
/// for each.
pub fn draw_batch<G: Grid>(grid: &mut G, batch: &[Pixel])
    ensures
        drawn_each(old(grid), batch@, final(grid)),
{
    let mut i: usize = 0;
    while i < batch.len()
        invariant
            i <= batch.len(),
            drawn_each(old(grid), batch@.take(i as int), grid),
        decreases batch.len() - i,
    {
        let ghost mid = *grid;
        grid.draw(&batch[i]);
        proof {
            let next = batch@.take(i + 1);
            assert(next.drop_last() == batch@.take(i as int));
            assert(mid.drawn(next.last(), grid));
        }
        i += 1;
    }
    proof {
        assert(batch@.take(i as int) == batch@);
    }
}

/// Drawing one pixel as a batch is one call of `draw` with that pixel.
pub proof fn lemma_drawn_each_one<G: Grid>(before: &G, px: Pixel, after: &G)
    ensures
        drawn_each(before, seq![px], after) <==> before.drawn(px, after),
{
    let batch = seq![px];
    assert(batch.last() == px);
    if before.drawn(px, after) {
        assert(drawn_each(before, batch.drop_last(), before));
    }
    if drawn_each(before, batch, after) {
        let mid = choose|mid: G|
            drawn_each(before, batch.drop_last(), &mid) && #[trigger] mid.drawn(
                batch.last(),
                after,
            );
        assert(mid == *before);
    }
}

/// Two flushes in a row draw what one flush of both batches would: every
/// pixel of the first batch and then every pixel of the second, each once
/// and in order. So however the pixels that were submitted are cut into
/// batches, the canvas sees each of them once, in the order of submission.
pub proof fn lemma_drawn_each_concat<G: Grid>(
    before: &G,
    first: Seq<Pixel>,
    between: &G,
    second: Seq<Pixel>,
    after: &G,
)
    requires
        drawn_each(before, first, between),
        drawn_each(between, second, after),
    ensures
        drawn_each(before, first + second, after),
    decreases second.len(),
{
    if second.len() > 0 {
        let mid = choose|mid: G|
            drawn_each(between, second.drop_last(), &mid) && #[trigger] mid.drawn(
                second.last(),
                after,
            );
        lemma_drawn_each_concat(before, first, between, second.drop_last(), &mid);
        assert((first + second).drop_last() == first + second.drop_last());
        assert((first + second).last() == second.last());
    }
}

/// The last pixel of `batch` that lies at `at`, if there is one.
pub open spec fn last_at(batch: Seq<Pixel>, at: Coordinate) -> Option<Pixel>
    decreases batch.len(),
{
    if batch.len() == 0 {
        None
    } else if batch.last().coordinate == at {
        Some(batch.last())
    } else {
        last_at(batch.drop_last(), at)
    }
}

/// Whether the canvases of type `G` keep what is drawn on them within
/// `region`: right after a draw, `fetch` reports the pixel that was drawn at
/// its coordinate, if that lies in `region`, and at every other coordinate
/// only what it could report before the draw.
pub open spec fn keeps_pixels<G: Grid>(region: spec_fn(Coordinate) -> bool) -> bool {
    forall|canvas: G, px: Pixel, after: G, at: Coordinate, found: Option<Pixel>|
        #[trigger] canvas.drawn(px, &after) && #[trigger] after.shows(at, found) ==> if at
            == px.coordinate {
            region(at) ==> found == Some(px)
        } else {
            canvas.shows(at, found)
        }
}

/// On a canvas that keeps what is drawn on it, a flushed batch is visible:
/// at a coordinate within the region where a pixel of the batch lies,
/// `fetch` reports the last such pixel; at a coordinate where none lies, it
/// reports only what it could report before the flush.
pub proof fn lemma_flushed_is_visible<G: Grid>(
    region: spec_fn(Coordinate) -> bool,
    before: &G,
    batch: Seq<Pixel>,
    after: &G,
    at: Coordinate,
    found: Option<Pixel>,
)
    requires
        keeps_pixels::<G>(region),
        drawn_each(before, batch, after),
        after.shows(at, found),
    ensures
        last_at(batch, at) is Some && region(at) ==> found == last_at(batch, at),
        last_at(batch, at) is None ==> before.shows(at, found),
    decreases batch.len(),
{
    if batch.len() > 0 {
        let mid = choose|mid: G|
            drawn_each(before, batch.drop_last(), &mid) && #[trigger] mid.drawn(
                batch.last(),
                after,
            );
        if batch.last().coordinate != at {
            lemma_flushed_is_visible(region, before, batch.drop_last(), &mid, at, found);
        }
    }
}

} // verus!
