//! The one line that the prompt shows.

use crate::selection::Selection;
use vstd::prelude::*;

verus! {

/// The two check boxes, with the box of `selection` ticked.
pub open spec fn boxes(selection: Selection) -> Seq<char> {
    match selection {
        Selection::Yes => " Yes [✓] No [ ]"@,
        Selection::No => " Yes [ ] No [✓]"@,
    }
}

/// The prompt's line: the question, then the two check boxes.
pub open spec fn line(question: Seq<char>, selection: Selection) -> Seq<char> {
    question + boxes(selection)
}

/// The number of characters that the check boxes take, whichever is ticked.
pub const BOXES_WIDTH: usize = 15;

/// The two check boxes are equally wide and differ in the two marks alone.
pub proof fn lemma_boxes_have_one_width()
    ensures
        boxes(Selection::Yes).len() == BOXES_WIDTH,
        boxes(Selection::No).len() == BOXES_WIDTH,
        forall|i: int|
            0 <= i < BOXES_WIDTH && i != 6 && i != 13 ==> boxes(Selection::Yes)[i] == boxes(
                Selection::No,
            )[i],
        boxes(Selection::Yes)[6] == '✓' && boxes(Selection::Yes)[13] == ' ',
        boxes(Selection::No)[6] == ' ' && boxes(Selection::No)[13] == '✓',
{
    reveal_strlit(" Yes [✓] No [ ]");
    reveal_strlit(" Yes [ ] No [✓]");
}

/// Renders the prompt's line: `question`, then `Yes [✓] No [ ]` where "Yes" is
/// marked and `Yes [ ] No [✓]` where "No" is.
pub fn render_line(question: &str, selection: Selection) -> (rendered: String)
    ensures
        rendered@ == line(question@, selection),
        rendered@.len() == question@.len() + BOXES_WIDTH,
{
    proof {
        lemma_boxes_have_one_width();
    }
    let boxes = match selection {
        Selection::Yes => " Yes [✓] No [ ]",
        Selection::No => " Yes [ ] No [✓]",
    };
    String::from_str(question).concat(boxes)
}

} // verus!
