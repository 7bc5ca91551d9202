//! The text widgets of the status bar, as plain values: their text, colours,
//! padding and placement.

use vstd::prelude::*;

verus! {

/// How a piece of text is drawn: its colour, its background (the bar's own
/// where `None`) and the padding in pixels to its left and right. Colours are
/// `0xRRGGBBAA`.
#[derive(Clone, Copy, Debug, PartialEq, Eq)]
pub struct Style {
    pub fg: u32,
    pub bg: Option<u32>,
    pub padding: (u32, u32),
}

/// A piece of text in the bar: what it says, how it is drawn, whether it
/// takes up the room the other widgets leave, and whether it is drawn at the
/// right end of its room.
#[derive(Debug)]
pub struct TextSpec {
    pub text: String,
    pub style: Style,
    pub is_greedy: bool,
    pub right_justified: bool,
}

/// Several pieces of text drawn side by side, each with a style of its own.
#[derive(Debug)]
pub struct MultiText {
    pub text: Vec<TextSpec>,
    pub styles: Vec<Style>,
    pub right_justified: bool,
}

impl MultiText {
    /// One piece of text for each string of `text`, drawn with the style at
    /// the same place in `styles`, never greedy, all justified alike.
    pub fn new(text: Vec<&str>, styles: Vec<Style>, right_justified: bool) -> (m: Self)
        requires
            text.len() <= styles.len(),
        ensures
            m.text.len() == text.len(),
            forall|i: int|
                0 <= i < text.len() ==> {
                    &&& (#[trigger] m.text[i]).text@ == text[i]@
                    &&& m.text[i].style == styles[i]
                    &&& !m.text[i].is_greedy
                    &&& m.text[i].right_justified == right_justified
                },
            m.styles == styles,
            m.right_justified == right_justified,
    {
        let mut pieces: Vec<TextSpec> = Vec::new();
        let mut index: usize = 0;
        while index < text.len()
            invariant
                index <= text.len() <= styles.len(),
                pieces.len() == index,
                forall|i: int|
                    0 <= i < index ==> {
                        &&& (#[trigger] pieces[i]).text@ == text[i]@
                        &&& pieces[i].style == styles[i]
                        &&& !pieces[i].is_greedy
                        &&& pieces[i].right_justified == right_justified
                    },
            decreases text.len() - index,
        {
            pieces.push(
                TextSpec {
                    text: String::from_str(text[index]),
                    style: styles[index],
                    is_greedy: false,
                    right_justified,
                },
            );
            index = index + 1;
        }
        MultiText { text: pieces, styles, right_justified }
    }

    /// Several pieces of text never take up the room the other widgets leave.
    pub fn is_greedy(&self) -> (r: bool)
        ensures
            !r,
    {
        false
    }
}

/// The sum of the widths of the extents that could be measured.
pub open spec fn width_sum(extents: Seq<Option<(u32, u32)>>) -> nat
    decreases extents.len(),
{
    if extents.len() == 0 {
        0
    } else {
        width_sum(extents.drop_last()) + match extents.last() {
            Some(e) => e.0 as nat,
            None => 0,
        }
    }
}

/// The extent of several pieces of text side by side, from the extents of
/// the pieces (`None` where one could not be measured, which then counts for
/// nothing). Both the width and the height come out as the sum of the
/// widths.
pub fn combined_extent(extents: &Vec<Option<(u32, u32)>>) -> (r: (u32, u32))
    requires
        width_sum(extents@) <= u32::MAX,
    ensures
        r.0 == width_sum(extents@),
        r.1 == width_sum(extents@),
{
    let mut sum: (u32, u32) = (0, 0);
    let mut i: usize = 0;
    while i < extents.len()
        invariant
            i <= extents.len(),
            width_sum(extents@) <= u32::MAX,
            sum.0 == width_sum(extents@.take(i as int)),
            sum.1 == width_sum(extents@.take(i as int)),
        decreases extents.len() - i,
    {
        proof {
            assert(extents@.take(i + 1).drop_last() =~= extents@.take(i as int));
            lemma_width_sum_prefix(extents@, i + 1);
        }
        match extents[i] {
            None => {},
            Some(value) => {
                sum.0 = sum.0 + value.0;
                sum.1 = sum.1 + value.0;
            },
        }
        i = i + 1;
    }
    assert(extents@.take(extents.len() as int) =~= extents@);
    sum
}

/// A prefix of the extents never has a larger width sum than all of them.
pub proof fn lemma_width_sum_prefix(extents: Seq<Option<(u32, u32)>>, n: int)
    requires
        0 <= n <= extents.len(),
    ensures
        width_sum(extents.take(n)) <= width_sum(extents),
    decreases extents.len() - n,
{
    if n < extents.len() {
        lemma_width_sum_prefix(extents, n + 1);
        assert(extents.take(n + 1).drop_last() =~= extents.take(n));
    } else {
        assert(extents.take(n) =~= extents);
    }
}

/// Whether several pieces of text must be drawn again: whether any of them
/// must.
pub fn any_require_draw(flags: &Vec<bool>) -> (r: bool)
    ensures
        r == flags@.contains(true),
{
    let mut i: usize = 0;
    while i < flags.len()
        invariant
            i <= flags.len(),
            forall|k: int| 0 <= k < i ==> !flags@[k],
        decreases flags.len() - i,
    {
        if flags[i] {
            assert(flags@[i as int]);
            return true;
        }
        i = i + 1;
    }
    false
}

} // verus!
