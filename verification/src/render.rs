//! The overlay renderer's geometry: for each sentence of the current set,
//! the occlusion panel over the original text and the placement of the
//! translated text inside it.
//!
//! Fitting strategy, fixed and documented as the design asks: wrapped fit.
//! The host lays each sentence out wrapped to the box width at the style's
//! base font size and reports the resulting line count; the font then
//! shrinks by a fixed decrement per line beyond the first (never below one),
//! the block of lines is centered vertically in the box — flush with its
//! top when it is taller than the box — and every line starts at the box's
//! left edge. A line's height is taken to be the drawn font size.
//!
//! Everything here is a pure function from the sentence set, the measured
//! line counts and the style to a frame plan; the host paints the plan and
//! unconditionally requests the next frame.

use vstd::prelude::*;
use crate::geometry::{Rect, Sentence};

verus! {

/// Pixel bound on style sizes; keeps every font computation inside `u64`.
pub const MAX_FONT_SIZE: u32 = 65535;

/// The ambient text style: the base font size wrapped text is laid out at,
/// and how much the font shrinks for each line beyond the first.
#[derive(Clone, Copy, Debug, PartialEq, Eq, Structural)]
pub struct Style {
    pub base_font_size: u32,
    pub per_line_decrement: u32,
}

impl Style {
    pub open spec fn wf(self) -> bool {
        1 <= self.base_font_size <= MAX_FONT_SIZE && self.per_line_decrement <= MAX_FONT_SIZE
    }

    pub fn new(base_font_size: u32, per_line_decrement: u32) -> (r: Style)
        requires
            1 <= base_font_size <= MAX_FONT_SIZE,
            per_line_decrement <= MAX_FONT_SIZE,
        ensures
            r == (Style { base_font_size, per_line_decrement }),
            r.wf(),
    {
        Style { base_font_size, per_line_decrement }
    }
}

/// A measured line count, as the layout step reports it; a non-empty text
/// always occupies at least one line, so zero is read as one.
pub open spec fn spec_line_count(line_count: u32) -> int {
    if line_count == 0 {
        1
    } else {
        line_count as int
    }
}

/// Wrapped-fit font size: the base size, shrunk by the decrement for every
/// line beyond the first, and never below one pixel.
pub open spec fn spec_fitted_font_size(style: Style, line_count: u32) -> int {
    let shrink = (style.per_line_decrement as int) * (spec_line_count(line_count) - 1);
    if shrink >= style.base_font_size {
        1
    } else {
        style.base_font_size - shrink
    }
}

pub fn fitted_font_size(style: &Style, line_count: u32) -> (r: u32)
    requires
        style.wf(),
    ensures
        r == spec_fitted_font_size(*style, line_count),
        1 <= r <= style.base_font_size,
{
    let lines: u64 = if line_count == 0 {
        1
    } else {
        line_count as u64
    };
    let decrement: u64 = style.per_line_decrement as u64;
    proof {
        assert(decrement * (lines - 1) <= 65535 * 0xffff_ffffu64) by (nonlinear_arith)
            requires
                decrement <= 65535,
                1 <= lines <= 0xffff_ffffu64 + 1,
        ;
    }
    let shrink: u64 = decrement * (lines - 1);
    let base: u64 = style.base_font_size as u64;
    if shrink >= base {
        1
    } else {
        (base - shrink) as u32
    }
}

/// The placement of one sentence: which sentence of the set it renders, the
/// panel to paint, the left edge and top of the text block, the fitted font
/// size, and how many lines the block holds. Line `i` of the block is drawn
/// `i` font heights below the top.
#[derive(Clone, Copy, Debug, PartialEq, Eq, Structural)]
pub struct SentencePlan {
    pub sentence_index: usize,
    pub occlusion: Rect,
    pub left_x: u32,
    pub block_top: u32,
    pub font_size: u32,
    pub line_count: u32,
}

impl SentencePlan {
    pub open spec fn wf(self) -> bool {
        1 <= self.font_size <= MAX_FONT_SIZE && 1 <= self.line_count
    }
}

/// Where the block of lines starts: centered vertically when it fits in the
/// box, flush with the box's top when it does not.
pub open spec fn spec_block_top(s: Sentence, style: Style, line_count: u32) -> int {
    let block_height = spec_line_count(line_count) * spec_fitted_font_size(style, line_count);
    if s.bbox.spec_height() >= block_height {
        s.bbox.min_y + (s.bbox.spec_height() - block_height) / 2
    } else {
        s.bbox.min_y as int
    }
}

pub open spec fn spec_plan_sentence(
    s: Sentence,
    style: Style,
    line_count: u32,
    sentence_index: usize,
) -> SentencePlan {
    SentencePlan {
        sentence_index,
        occlusion: s.bbox.spec_occlusion_rect(),
        left_x: s.bbox.min_x,
        block_top: spec_block_top(s, style, line_count) as u32,
        font_size: spec_fitted_font_size(style, line_count) as u32,
        line_count: spec_line_count(line_count) as u32,
    }
}

/// Plan one sentence, recorded as entry `sentence_index` of its set: some
/// placement exactly when the text is non-empty — an empty text suppresses
/// the occlusion panel and the text alike.
pub fn plan_sentence(s: &Sentence, style: &Style, line_count: u32, sentence_index: usize) -> (r:
    Option<SentencePlan>)
    requires
        s.wf(),
        style.wf(),
    ensures
        r is Some <==> s.text@.len() != 0,
        r is Some ==> r->Some_0 == spec_plan_sentence(*s, *style, line_count, sentence_index)
            && r->Some_0.wf(),
{
    if s.is_blank() {
        return None;
    }
    let font_size = fitted_font_size(style, line_count);
    let lines: u64 = if line_count == 0 {
        1
    } else {
        line_count as u64
    };
    proof {
        assert(lines * (font_size as u64) <= (0xffff_ffffu64 + 1) * 65535) by (nonlinear_arith)
            requires
                1 <= lines <= 0xffff_ffffu64 + 1,
                font_size <= 65535,
        ;
    }
    let block_height: u64 = lines * (font_size as u64);
    let box_height: u64 = s.bbox.height() as u64;
    let block_top: u32 = if box_height >= block_height {
        ((s.bbox.min_y as u64) + (box_height - block_height) / 2) as u32
    } else {
        s.bbox.min_y
    };
    Some(
        SentencePlan {
            sentence_index,
            occlusion: s.bbox.occlusion_rect(),
            left_x: s.bbox.min_x,
            block_top,
            font_size,
            line_count: lines as u32,
        },
    )
}

/// The top of line `line_index` within a planned block: the block's top,
/// plus one font height per line above it.
pub fn line_top(plan: &SentencePlan, line_index: u32) -> (r: u64)
    requires
        plan.wf(),
        line_index < plan.line_count,
    ensures
        r == plan.block_top + line_index * plan.font_size,
{
    proof {
        assert((line_index as u64) * (plan.font_size as u64) <= 0xffff_ffffu64 * 65535)
            by (nonlinear_arith)
            requires
                line_index <= 0xffff_ffffu64,
                plan.font_size <= 65535,
        ;
    }
    (plan.block_top as u64) + (line_index as u64) * (plan.font_size as u64)
}

/// One frame: the placements of every non-empty sentence, in the set's
/// order, and the unconditional request for the next frame.
pub struct FramePlan {
    pub items: Vec<SentencePlan>,
    pub repaint: bool,
}

/// The placements the first `n` sentences contribute: each non-empty one
/// adds its plan, each empty one adds nothing.
pub open spec fn spec_frame_items(
    sentences: Seq<Sentence>,
    line_counts: Seq<u32>,
    style: Style,
    n: int,
) -> Seq<SentencePlan>
    decreases n,
{
    if n <= 0 {
        Seq::<SentencePlan>::empty()
    } else {
        let rest = spec_frame_items(sentences, line_counts, style, n - 1);
        if sentences[n - 1].text@.len() == 0 {
            rest
        } else {
            rest.push(
                spec_plan_sentence(sentences[n - 1], style, line_counts[n - 1], (n - 1) as usize),
            )
        }
    }
}

/// Plan a whole frame from the current sentence set and the measured line
/// counts (entry `i` belongs to sentence `i`). The next repaint is requested
/// unconditionally, whether or not anything was drawn.
pub fn plan_frame(sentences: &Vec<Sentence>, line_counts: &Vec<u32>, style: &Style) -> (r:
    FramePlan)
    requires
        style.wf(),
        sentences@.len() == line_counts@.len(),
        forall|i: int| 0 <= i < sentences@.len() ==> (#[trigger] sentences@[i]).wf(),
    ensures
        r.items@ == spec_frame_items(sentences@, line_counts@, *style, sentences@.len() as int),
        r.repaint,
        forall|i: int| 0 <= i < r.items@.len() ==> (#[trigger] r.items@[i]).wf(),
{
    let mut items: Vec<SentencePlan> = Vec::new();
    let mut i: usize = 0;
    while i < sentences.len()
        invariant
            i <= sentences@.len(),
            sentences@.len() == line_counts@.len(),
            style.wf(),
            forall|j: int| 0 <= j < sentences@.len() ==> (#[trigger] sentences@[j]).wf(),
            items@ == spec_frame_items(sentences@, line_counts@, *style, i as int),
            forall|j: int| 0 <= j < items@.len() ==> (#[trigger] items@[j]).wf(),
        decreases sentences@.len() - i,
    {
        match plan_sentence(&sentences[i], style, line_counts[i], i) {
            Some(plan) => {
                items.push(plan);
            },
            None => {},
        }
        i += 1;
    }
    FramePlan { items, repaint: true }
}

/// What it means for entry `k` of a frame's first-`n` plan to be traceable:
/// it names a sentence before `n` whose text is non-empty, and it is exactly
/// that sentence's placement under its measured line count.
pub open spec fn frame_item_traced(
    sentences: Seq<Sentence>,
    line_counts: Seq<u32>,
    style: Style,
    n: int,
    k: int,
) -> bool {
    let item = spec_frame_items(sentences, line_counts, style, n)[k];
    &&& item.sentence_index < n
    &&& sentences[item.sentence_index as int].text@.len() != 0
    &&& item == spec_plan_sentence(
        sentences[item.sentence_index as int],
        style,
        line_counts[item.sentence_index as int],
        item.sentence_index,
    )
}

/// Every placement of a frame is traceable to one non-empty sentence of the
/// set: in particular, an occlusion rectangle is only ever painted for a
/// sentence that has text.
pub proof fn lemma_frame_items_traced(
    sentences: Seq<Sentence>,
    line_counts: Seq<u32>,
    style: Style,
    n: int,
)
    requires
        0 <= n <= sentences.len(),
        sentences.len() <= usize::MAX,
    ensures
        forall|k: int|
            0 <= k < spec_frame_items(sentences, line_counts, style, n).len()
                ==> #[trigger] frame_item_traced(sentences, line_counts, style, n, k),
    decreases n,
{
    if n > 0 {
        lemma_frame_items_traced(sentences, line_counts, style, n - 1);
        let prev = spec_frame_items(sentences, line_counts, style, n - 1);
        let cur = spec_frame_items(sentences, line_counts, style, n);
        assert forall|k: int| 0 <= k < cur.len() implies #[trigger] frame_item_traced(
            sentences,
            line_counts,
            style,
            n,
            k,
        ) by {
            if k < prev.len() {
                assert(frame_item_traced(sentences, line_counts, style, n - 1, k));
            }
        }
    }
}

/// An empty text never occludes: a run of sentences all of whose texts are
/// empty contributes no placement at all to a frame, whatever the boxes or
/// the measured line counts say.
pub proof fn lemma_empty_text_never_drawn(
    sentences: Seq<Sentence>,
    line_counts: Seq<u32>,
    style: Style,
    n: int,
)
    requires
        0 <= n <= sentences.len(),
        forall|i: int| 0 <= i < n ==> (#[trigger] sentences[i]).text@.len() == 0,
    ensures
        spec_frame_items(sentences, line_counts, style, n) == Seq::<SentencePlan>::empty(),
    decreases n,
{
    if n > 0 {
        lemma_empty_text_never_drawn(sentences, line_counts, style, n - 1);
    }
}

} // verus!
