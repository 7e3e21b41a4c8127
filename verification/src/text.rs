//! The text component: a rich text made of styled sections.

use vstd::prelude::*;

verus! {

/// How the lines of a paragraph are set against each other.
#[derive(Clone, Copy, Debug, PartialEq, Eq)]
pub enum JustifyText {
    /// Lines start at the left edge.
    Left,
    /// Lines are centred.
    Center,
    /// Lines end at the right edge.
    Right,
}

/// Where a line that is too long may be broken.
#[derive(Clone, Copy, Debug, PartialEq, Eq)]
pub enum BreakLineOn {
    /// Between words.
    WordBoundary,
    /// Between any two characters.
    AnyCharacter,
    /// Nowhere: lines end only where the text says so.
    NoWrap,
}

/// A run of text in one style. The style (font, size, colour) is the
/// host's; the library carries it along.
#[derive(Debug, PartialEq, Eq)]
pub struct TextSection<S> {
    /// The characters of the run.
    pub value: String,
    /// How they are drawn.
    pub style: S,
}

/// Text that is drawn in the UI at any position, rotation and depth.
///
/// A type of its own, so that the host's passes for its ordinary text do not
/// pick the entity up and draw the text a second time.
#[derive(Debug, PartialEq, Eq)]
pub struct UiText<S> {
    /// The sections, in reading order.
    pub sections: Vec<TextSection<S>>,
    /// How the lines are justified.
    pub justify: JustifyText,
    /// Where lines may be broken.
    pub linebreak_behavior: BreakLineOn,
}

impl<S> UiText<S> {
    /// A text with a single section, justified to the left and broken
    /// between words.
    pub fn from_section(value: String, style: S) -> (text: Self)
        ensures
            text.sections@ == seq![(TextSection { value, style })],
            text.justify == JustifyText::Left,
            text.linebreak_behavior == BreakLineOn::WordBoundary,
    {
        let mut sections: Vec<TextSection<S>> = Vec::new();
        sections.push(TextSection { value, style });
        UiText {
            sections,
            justify: JustifyText::Left,
            linebreak_behavior: BreakLineOn::WordBoundary,
        }
    }

    /// A text with the given sections, in their order, justified to the left
    /// and broken between words.
    pub fn from_sections(sections: Vec<TextSection<S>>) -> (text: Self)
        ensures
            text.sections@ == sections@,
            text.justify == JustifyText::Left,
            text.linebreak_behavior == BreakLineOn::WordBoundary,
    {
        UiText {
            sections,
            justify: JustifyText::Left,
            linebreak_behavior: BreakLineOn::WordBoundary,
        }
    }

    /// Appends a section to the end of the text. The sections before it,
    /// the justification and the line breaking stay as they are.
    pub fn push_section(&mut self, value: String, style: S)
        ensures
            final(self).sections@ == old(self).sections@.push((TextSection { value, style })),
            final(self).justify == old(self).justify,
            final(self).linebreak_behavior == old(self).linebreak_behavior,
    {
        self.sections.push(TextSection { value, style });
    }
}

impl<S> Default for UiText<S> {
    /// A text without sections, justified to the left and broken between
    /// words.
    fn default() -> (text: Self)
        ensures
            text.sections@ == Seq::<TextSection<S>>::empty(),
            text.justify == JustifyText::Left,
            text.linebreak_behavior == BreakLineOn::WordBoundary,
    {
        UiText {
            sections: Vec::new(),
            justify: JustifyText::Left,
            linebreak_behavior: BreakLineOn::WordBoundary,
        }
    }
}

} // verus!
