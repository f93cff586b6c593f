//! A page: a canvas of a fixed size and the views that are drawn on it.
//!
//! The views are stacked from the top of the canvas downwards, each in a
//! band of the canvas's full width; the bands share the height as evenly
//! as whole device units allow. A single view fills the page.

use crate::render::{drawing, drawn, models, Frame, Primitive, PrimitiveModel};
use crate::view::{ContinuousView, ViewModel};
use vstd::arithmetic::div_mod::{lemma_div_is_ordered, lemma_div_multiples_vanish};
use vstd::arithmetic::mul::lemma_mul_inequality;
use vstd::prelude::*;

verus! {

/// The width of a page whose size was not set.
pub const DEFAULT_WIDTH: u32 = 600;

/// The height of a page whose size was not set.
pub const DEFAULT_HEIGHT: u32 = 400;

/// How far below the top of a canvas of `height` the band at `index`
/// begins, where `count` bands share the canvas.
pub open spec fn band_top(height: int, count: int, index: int) -> int {
    index * height / count
}

/// The number of elements in the first `count` of `views`.
pub open spec fn element_count(views: Seq<ViewModel>, count: int) -> int
    decreases count,
{
    if count <= 0 {
        0
    } else {
        element_count(views, count - 1) + views[count - 1].elements.len()
    }
}

/// A page, as plain values.
pub struct PageModel {
    pub width: u32,
    pub height: u32,
    /// The views, in the order in which they were added.
    pub views: Seq<ViewModel>,
}

impl PageModel {
    /// The band of the canvas into which the view at `index` is drawn.
    pub open spec fn frame(self, index: int) -> Frame {
        let count = self.views.len() as int;
        let top = band_top(self.height as int, count, index);
        let below = band_top(self.height as int, count, index + 1);
        Frame { left: 0, top: top as u32, width: self.width, height: (below - top) as u32 }
    }

    /// The shapes of the first `count` views, view after view.
    pub open spec fn shapes_of_first(self, count: int) -> Seq<PrimitiveModel>
        decreases count,
    {
        if count <= 0 {
            Seq::empty()
        } else {
            self.shapes_of_first(count - 1) + drawing(self.views[count - 1], self.frame(count - 1))
        }
    }

    /// The shapes that the page is drawn as: those of each view in its
    /// frame, in the order of the views.
    pub open spec fn shapes(self) -> Seq<PrimitiveModel> {
        self.shapes_of_first(self.views.len() as int)
    }
}

/// A canvas and the views on it.
#[derive(Debug, Clone)]
pub struct Page {
    views: Vec<ContinuousView>,
    width: u32,
    height: u32,
}

impl View for Page {
    type V = PageModel;

    closed spec fn view(&self) -> PageModel {
        PageModel {
            width: self.width,
            height: self.height,
            views: self.views@.map_values(|v: ContinuousView| v@),
        }
    }
}

impl Page {
    /// The page of the default size without a view.
    pub fn empty() -> (page: Self)
        ensures
            page@ == (PageModel {
                width: DEFAULT_WIDTH,
                height: DEFAULT_HEIGHT,
                views: Seq::empty(),
            }),
    {
        let page = Page { views: Vec::new(), width: DEFAULT_WIDTH, height: DEFAULT_HEIGHT };
        assert(page.views@.map_values(|v: ContinuousView| v@) =~= Seq::empty());
        page
    }

    /// The page of the default size that `view` fills.
    pub fn single(view: ContinuousView) -> (page: Self)
        ensures
            page@ == (PageModel {
                width: DEFAULT_WIDTH,
                height: DEFAULT_HEIGHT,
                views: seq![view@],
            }),
    {
        Page::empty().add_plot(view)
    }

    /// Adds `view` below the views that the page holds.
    pub fn add_plot(self, view: ContinuousView) -> (page: Self)
        ensures
            page@ == (PageModel { views: self@.views.push(view@), ..self@ }),
    {
        let mut page = self;
        page.views.push(view);
        assert(page.views@.map_values(|v: ContinuousView| v@) =~= self.views@.map_values(
            |v: ContinuousView| v@,
        ).push(view@));
        page
    }

    /// Sets the size of the canvas.
    pub fn dimensions(self, width: u32, height: u32) -> (page: Self)
        ensures
            page@ == (PageModel { width, height, ..self@ }),
    {
        let mut page = self;
        page.width = width;
        page.height = height;
        page
    }

    /// The width of the canvas.
    pub fn get_width(&self) -> (width: u32)
        ensures
            width == self@.width,
    {
        self.width
    }

    /// The height of the canvas.
    pub fn get_height(&self) -> (height: u32)
        ensures
            height == self@.height,
    {
        self.height
    }

    /// How far below the top of the canvas the band at `index` begins.
    fn top_of_band(&self, index: usize) -> (top: u32)
        requires
            index <= self.views.len(),
            self.views.len() > 0,
        ensures
            top == band_top(self.height as int, self.views.len() as int, index as int),
    {
        let count = self.views.len();
        proof {
            lemma_band_top(self.height as int, count as int, index as int);
            assert(index * self.height <= 0xffff_ffff_ffff_ffff * 0xffff_ffff) by (nonlinear_arith)
                requires
                    0 <= index <= 0xffff_ffff_ffff_ffff,
                    0 <= self.height <= 0xffff_ffff,
            ;
        }
        ((index as u128) * (self.height as u128) / (count as u128)) as u32
    }

    /// The band of the canvas into which the view at `index` is drawn.
    fn band(&self, index: usize) -> (frame: Frame)
        requires
            index < self.views.len(),
        ensures
            frame == self@.frame(index as int),
    {
        proof {
            lemma_band_top(self.height as int, self.views.len() as int, index as int);
        }
        let top = self.top_of_band(index);
        let below = self.top_of_band(index + 1);
        Frame { left: 0, top, width: self.width, height: below - top }
    }

    /// The band of the canvas into which the view at `index` is drawn, or
    /// nothing where the page has no such view.
    pub fn frame(&self, index: usize) -> (frame: Option<Frame>)
        ensures
            index < self@.views.len() ==> frame == Some(self@.frame(index as int)),
            index >= self@.views.len() ==> frame is None,
    {
        if index < self.views.len() {
            Some(self.band(index))
        } else {
            None
        }
    }

    /// The views, in the order in which they were added.
    pub fn views(&self) -> (views: &Vec<ContinuousView>)
        ensures
            views@.len() == self@.views.len(),
            forall|k: int| 0 <= k < views@.len() ==> (#[trigger] views@[k])@ == self@.views[k],
    {
        &self.views
    }

    /// The shapes that the page is drawn as: for each view in turn, one
    /// shape for each of its elements, in the order in which they were
    /// added.
    pub fn primitives(&self) -> (shapes: Vec<Primitive>)
        ensures
            models(shapes@) == self@.shapes(),
            shapes@.len() == element_count(self@.views, self@.views.len() as int),
    {
        let mut shapes: Vec<Primitive> = Vec::new();
        let mut k: usize = 0;
        assert(models(shapes@) =~= self@.shapes_of_first(0));
        while k < self.views.len()
            invariant
                k <= self.views.len(),
                self.views.len() == self@.views.len(),
                models(shapes@) == self@.shapes_of_first(k as int),
            decreases self.views.len() - k,
        {
            let mut more = self.views[k].primitives(self.band(k));
            let ghost before = shapes@;
            let ghost added = more@;
            shapes.append(&mut more);
            proof {
                assert(models(before + added) =~= models(before) + models(added));
                assert(self@.views[k as int] == self.views[k as int]@);
            }
            k += 1;
        }
        proof {
            lemma_shapes_keep_structure(self@);
        }
        shapes
    }
}

/// The bands begin at the top of the canvas, end at its bottom, and none
/// begins above the one before it.
pub proof fn lemma_band_top(height: int, count: int, index: int)
    requires
        0 <= height,
        0 <= index <= count,
        0 < count,
    ensures
        band_top(height, count, 0) == 0,
        band_top(height, count, count) == height,
        0 <= band_top(height, count, index) <= height,
        index < count ==> band_top(height, count, index) <= band_top(height, count, index + 1),
{
    assert(0 * height == 0);
    lemma_div_multiples_vanish(height, count);
    lemma_mul_inequality(0, index, height);
    lemma_mul_inequality(index, count, height);
    lemma_div_is_ordered(0, index * height, count);
    lemma_div_is_ordered(index * height, count * height, count);
    if index < count {
        lemma_mul_inequality(index, index + 1, height);
        lemma_div_is_ordered(index * height, (index + 1) * height, count);
    }
}

/// The frames tile the canvas from top to bottom: each has the canvas's
/// full width, the first begins at the top, each next one begins where the
/// one before it ends, and the last ends at the bottom. So a single view
/// fills the page.
pub proof fn lemma_frames_tile(page: PageModel, index: int)
    requires
        0 <= index < page.views.len(),
    ensures
        page.frame(index).left == 0,
        page.frame(index).width == page.width,
        page.frame(0).top == 0,
        page.frame(index).top + page.frame(index).height <= page.height,
        index + 1 < page.views.len() ==> page.frame(index + 1).top == page.frame(index).top
            + page.frame(index).height,
        index + 1 == page.views.len() ==> page.frame(index).top + page.frame(index).height
            == page.height,
        page.views.len() == 1 ==> page.frame(0) == (Frame {
            left: 0,
            top: 0,
            width: page.width,
            height: page.height,
        }),
{
    let count = page.views.len() as int;
    lemma_band_top(page.height as int, count, index);
    lemma_band_top(page.height as int, count, index + 1);
}

/// The first `count` views of a page are drawn as one shape for each of
/// their elements, view after view and, within a view, in the order of its
/// elements.
pub proof fn lemma_shapes_of_first(page: PageModel, count: int)
    requires
        0 <= count <= page.views.len(),
    ensures
        page.shapes_of_first(count).len() == element_count(page.views, count),
        forall|k: int, i: int|
            0 <= k < count && 0 <= i < page.views[k].elements.len() ==> ({
                &&& 0 <= #[trigger] (element_count(page.views, k) + i) < page.shapes_of_first(
                    count,
                ).len()
                &&& page.shapes_of_first(count)[element_count(page.views, k) + i] == drawn(
                    page.views[k].elements[i],
                    page.views[k],
                    page.frame(k),
                )
            }),
    decreases count,
{
    if count > 0 {
        lemma_shapes_of_first(page, count - 1);
        lemma_element_count_grows(page.views, 0, count - 1);
        assert forall|k: int, i: int|
            0 <= k < count && 0 <= i < page.views[k].elements.len() implies {
            &&& 0 <= #[trigger] (element_count(page.views, k) + i) < page.shapes_of_first(
                count,
            ).len()
            &&& page.shapes_of_first(count)[element_count(page.views, k) + i] == drawn(
                page.views[k].elements[i],
                page.views[k],
                page.frame(k),
            )
        } by {
            lemma_element_count_grows(page.views, 0, k);
            if k < count - 1 {
                lemma_element_count_grows(page.views, k + 1, count - 1);
            }
        }
    }
}

/// A page is drawn as exactly one shape for each element of each of its
/// views: view after view and, within a view, in the order in which its
/// elements were added.
pub proof fn lemma_shapes_keep_structure(page: PageModel)
    ensures
        page.shapes().len() == element_count(page.views, page.views.len() as int),
        forall|k: int, i: int|
            0 <= k < page.views.len() && 0 <= i < page.views[k].elements.len() ==> ({
                &&& 0 <= #[trigger] (element_count(page.views, k) + i) < page.shapes().len()
                &&& page.shapes()[element_count(page.views, k) + i] == drawn(
                    page.views[k].elements[i],
                    page.views[k],
                    page.frame(k),
                )
            }),
{
    lemma_shapes_of_first(page, page.views.len() as int);
}

/// The number of elements does not fall as more views are counted.
proof fn lemma_element_count_grows(views: Seq<ViewModel>, fewer: int, more: int)
    requires
        0 <= fewer <= more,
    ensures
        0 <= element_count(views, fewer) <= element_count(views, more),
    decreases more,
{
    if fewer < more {
        lemma_element_count_grows(views, fewer, more - 1);
    } else if more > 0 {
        lemma_element_count_grows(views, 0, more - 1);
    }
}

} // verus!
