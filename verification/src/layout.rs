//! The layout stage: when the text of an entity is laid out again, and what
//! becomes of the answer of the layout service.
//!
//! The stage does not shape text itself. The host walks its text entities
//! and reports what it sees, one event at a time;
//! [`update_ui_independent_text_layout`] answers each event with the next
//! thing to do and keeps the retry queue in step: at any time the queue
//! holds the entities whose last layout attempt found a font missing.

use crate::retry_queue::RetryQueue;
use vstd::prelude::*;

verus! {

/// Why the layout service could not shape a text.
#[derive(Clone, Copy, Debug, PartialEq, Eq)]
pub enum TextError {
    /// A font of the text is not loaded yet. Trying again later can succeed.
    NoSuchFont,
    /// A glyph could not be added to the glyph atlas. Trying again cannot
    /// help.
    FailedToAddGlyph,
}

/// What the host reports about one entity.
#[derive(Debug, PartialEq, Eq)]
pub enum LayoutEvent<L> {
    /// The stage has come to the entity.
    Visited {
        /// The display's scale factor changed since the last frame.
        factor_changed: bool,
        /// The text was created or changed since the stage last ran.
        text_changed: bool,
    },
    /// The layout service has answered for the entity.
    Answered(Result<L, TextError>),
}

/// What the host does next for the entity.
#[derive(Debug, PartialEq, Eq)]
pub enum LayoutAction<L> {
    /// Nothing: the cached layout stays as it is.
    Skip,
    /// Ask the layout service to shape the text.
    Shape,
    /// Replace the cached layout by this one.
    Store(L),
    /// Nothing now: the entity waits in the retry queue for its font.
    Retry,
    /// Give up for good: the glyph atlas is beyond repair.
    Abort,
}

/// Whether a visited entity is laid out again: the scale factor changed,
/// its text changed, or it waits in the retry queue.
pub open spec fn needs_layout(
    queue: Set<u64>,
    entity: u64,
    factor_changed: bool,
    text_changed: bool,
) -> bool {
    factor_changed || text_changed || queue.contains(entity)
}

/// The action that answers an event.
pub open spec fn next_action<L>(queue: Set<u64>, entity: u64, event: LayoutEvent<L>) -> LayoutAction<
    L,
> {
    match event {
        LayoutEvent::Visited { factor_changed, text_changed } => {
            if needs_layout(queue, entity, factor_changed, text_changed) {
                LayoutAction::Shape
            } else {
                LayoutAction::Skip
            }
        },
        LayoutEvent::Answered(Ok(layout)) => LayoutAction::Store(layout),
        LayoutEvent::Answered(Err(TextError::NoSuchFont)) => LayoutAction::Retry,
        LayoutEvent::Answered(Err(TextError::FailedToAddGlyph)) => LayoutAction::Abort,
    }
}

/// The retry queue after an event: a missing font puts the entity in, a
/// layout takes it out, and nothing else touches the queue.
pub open spec fn next_queue<L>(queue: Set<u64>, entity: u64, event: LayoutEvent<L>) -> Set<u64> {
    match event {
        LayoutEvent::Visited { .. } => queue,
        LayoutEvent::Answered(Ok(_)) => queue.remove(entity),
        LayoutEvent::Answered(Err(TextError::NoSuchFont)) => queue.insert(entity),
        LayoutEvent::Answered(Err(TextError::FailedToAddGlyph)) => queue,
    }
}

/// One step of the layout stage for one entity.
///
/// On a visit the text of the entity is to be shaped if the scale factor
/// changed, the text changed, or the entity waits in the retry queue;
/// otherwise the entity is skipped. A visit leaves the queue as it is.
/// When the service has shaped the text, the layout it returned is to be
/// stored, and the entity waits no longer. When a font was missing the
/// entity waits in the retry queue and nothing is stored. When a glyph could
/// not be added to the atlas the stage is to be aborted; the queue stays as
/// it is.
pub fn update_ui_independent_text_layout<L>(
    queue: &mut RetryQueue,
    entity: u64,
    event: LayoutEvent<L>,
) -> (action: LayoutAction<L>)
    ensures
        action == next_action(old(queue)@, entity, event),
        final(queue)@ == next_queue(old(queue)@, entity, event),
{
    match event {
        LayoutEvent::Visited { factor_changed, text_changed } => {
            if factor_changed || text_changed || queue.contains(entity) {
                LayoutAction::Shape
            } else {
                LayoutAction::Skip
            }
        },
        LayoutEvent::Answered(Ok(layout)) => {
            queue.release(entity);
            LayoutAction::Store(layout)
        },
        LayoutEvent::Answered(Err(TextError::NoSuchFont)) => {
            queue.defer(entity);
            LayoutAction::Retry
        },
        LayoutEvent::Answered(Err(TextError::FailedToAddGlyph)) => LayoutAction::Abort,
    }
}

/// An entity whose text did not change, under a scale factor that did not
/// change, and which does not wait in the retry queue, is skipped: no layout
/// is asked for, none is stored, and the queue stays as it was.
pub proof fn unchanged_text_is_skipped<L>(queue: Set<u64>, entity: u64)
    requires
        !queue.contains(entity),
    ensures
        next_action(
            queue,
            entity,
            LayoutEvent::<L>::Visited { factor_changed: false, text_changed: false },
        ) == LayoutAction::<L>::Skip,
        next_queue(
            queue,
            entity,
            LayoutEvent::<L>::Visited { factor_changed: false, text_changed: false },
        ) == queue,
{
}

/// An entity whose text changed has its layout asked for, once. If the
/// service shapes the text, that layout is stored and the entity does not
/// wait in the retry queue; if a font is missing, nothing is stored and the
/// entity waits in the queue. Never both.
pub proof fn changed_text_is_laid_out_once<L>(
    queue: Set<u64>,
    entity: u64,
    factor_changed: bool,
    layout: L,
)
    ensures
        ({
            let visited = LayoutEvent::<L>::Visited { factor_changed, text_changed: true };
            let asked = next_queue(queue, entity, visited);
            let shaped = LayoutEvent::<L>::Answered(Ok(layout));
            let missing = LayoutEvent::<L>::Answered(Err(TextError::NoSuchFont));
            &&& next_action(queue, entity, visited) == LayoutAction::<L>::Shape
            &&& next_action(asked, entity, shaped) == LayoutAction::Store(layout)
            &&& !next_queue(asked, entity, shaped).contains(entity)
            &&& next_action(asked, entity, missing) == LayoutAction::<L>::Retry
            &&& next_queue(asked, entity, missing).contains(entity)
        }),
{
}

/// A change of the scale factor has every visited entity laid out again,
/// whether or not its text changed and whether or not it was waiting.
pub proof fn scale_factor_change_forces_layout<L>(queue: Set<u64>, entity: u64, text_changed: bool)
    ensures
        next_action(
            queue,
            entity,
            LayoutEvent::<L>::Visited { factor_changed: true, text_changed },
        ) == LayoutAction::<L>::Shape,
{
}

/// An entity that waits in the retry queue is laid out again at every visit
/// and goes on waiting until the service shapes its text.
pub proof fn waiting_entity_is_tried_again<L>(
    queue: Set<u64>,
    entity: u64,
    factor_changed: bool,
    text_changed: bool,
)
    requires
        queue.contains(entity),
    ensures
        ({
            let visited = LayoutEvent::<L>::Visited { factor_changed, text_changed };
            let missing = LayoutEvent::<L>::Answered(Err(TextError::NoSuchFont));
            &&& next_action(queue, entity, visited) == LayoutAction::<L>::Shape
            &&& next_queue(queue, entity, visited).contains(entity)
            &&& next_queue(queue, entity, missing).contains(entity)
        }),
{
}

/// After the service's answer for an entity, the entity waits in the retry
/// queue exactly if a font was missing. The one exception is the answer
/// that aborts the stage, which leaves the queue as it was.
pub proof fn queue_holds_the_missing_fonts<L>(
    queue: Set<u64>,
    entity: u64,
    answer: Result<L, TextError>,
)
    ensures
        answer != Err::<L, TextError>(TextError::FailedToAddGlyph) ==> (next_queue(
            queue,
            entity,
            LayoutEvent::Answered(answer),
        ).contains(entity) <==> answer == Err::<L, TextError>(TextError::NoSuchFont)),
        answer == Err::<L, TextError>(TextError::FailedToAddGlyph) ==> next_queue(
            queue,
            entity,
            LayoutEvent::Answered(answer),
        ) == queue,
{
}

/// No event about one entity changes whether another entity waits.
pub proof fn other_entities_keep_their_place<L>(
    queue: Set<u64>,
    entity: u64,
    event: LayoutEvent<L>,
    other: u64,
)
    requires
        other != entity,
    ensures
        next_queue(queue, entity, event).contains(other) <==> queue.contains(other),
{
}

} // verus!
