//! Tools: state machines that turn pointer and key interactions into
//! events on entities.
use crate::element::id::{Id, IdSource, IdView};
use crate::entity::{entity_views, Entity, EntityView};
use crate::geometry::{Point2, Vector2};
use crate::renderer::{drawn_all, Painted, Renderer};
use crate::text::same_text;
use crate::tool::click_draw_tool::{ClickDrawTool, ClickDrawView};
use crate::tool::move_draw_tool::{MoveDrawTool, MoveDrawView};
use crate::tool::select_tool::{SelectTool, SelectView};
use vstd::prelude::*;

pub mod click_draw_tool;
pub mod move_draw_tool;
pub mod select_tool;

verus! {

/// What a pointer is moved with.
#[derive(Copy, Clone, Debug, PartialEq, Eq, Hash, Structural)]
pub enum PointingDevice {
    Mouse,
    Pen,
    Touch,
}

/// The keys that tools react to.
#[derive(Copy, Clone, Debug, PartialEq, Eq, Hash, Structural)]
pub enum Key {
    Esc,
    Enter,
    Backspace,
    Delete,
    ArrowLeft,
    ArrowUp,
    ArrowRight,
    ArrowDown,
}

/// One interaction of the user with the board.
#[derive(Copy, Clone, Debug, PartialEq, Eq, Hash, Structural)]
pub enum Interaction {
    PointerDown(Point2, PointingDevice),
    PointerMove(Point2, PointingDevice),
    PointerUp(Point2, PointingDevice),
    KeyDown(Key),
    KeyUp(Key),
}

/// The key that the host names `name`. Exactly eight names are
/// recognised.
pub open spec fn key_named(name: Seq<char>) -> Option<Key> {
    if name == "Escape"@ {
        Some(Key::Esc)
    } else if name == "Enter"@ {
        Some(Key::Enter)
    } else if name == "Backspace"@ {
        Some(Key::Backspace)
    } else if name == "Delete"@ {
        Some(Key::Delete)
    } else if name == "ArrowLeft"@ {
        Some(Key::ArrowLeft)
    } else if name == "ArrowUp"@ {
        Some(Key::ArrowUp)
    } else if name == "ArrowRight"@ {
        Some(Key::ArrowRight)
    } else if name == "ArrowDown"@ {
        Some(Key::ArrowDown)
    } else {
        None
    }
}

/// The key that the host names `key`, or `None` for any other name.
pub fn from_js_key(key: &str) -> (r: Option<Key>)
    ensures
        r == key_named(key@),
{
    if same_text(key, "Escape") {
        Some(Key::Esc)
    } else if same_text(key, "Enter") {
        Some(Key::Enter)
    } else if same_text(key, "Backspace") {
        Some(Key::Backspace)
    } else if same_text(key, "Delete") {
        Some(Key::Delete)
    } else if same_text(key, "ArrowLeft") {
        Some(Key::ArrowLeft)
    } else if same_text(key, "ArrowUp") {
        Some(Key::ArrowUp)
    } else if same_text(key, "ArrowRight") {
        Some(Key::ArrowRight)
    } else if same_text(key, "ArrowDown") {
        Some(Key::ArrowDown)
    } else {
        None
    }
}

/// What a tool asks of the view port.
#[derive(Debug, PartialEq, Eq)]
pub enum ToolEvent {
    /// An entity is drawn: install it.
    FinishDrawing(Entity),
    /// Move the entity with this identifier.
    Translate { id: Id, by: Vector2 },
    /// Remove the entity with this identifier.
    Remove { id: Id },
}

/// What a [`ToolEvent`] holds, as mathematical values.
pub enum ToolEventView {
    FinishDrawing(EntityView),
    Translate { id: IdView, by: Vector2 },
    Remove { id: IdView },
}

impl View for ToolEvent {
    type V = ToolEventView;

    open spec fn view(&self) -> ToolEventView {
        match *self {
            ToolEvent::FinishDrawing(entity) => ToolEventView::FinishDrawing(entity@),
            ToolEvent::Translate { id, by } => ToolEventView::Translate { id: id@, by },
            ToolEvent::Remove { id } => ToolEventView::Remove { id: id@ },
        }
    }
}

/// The views of a sequence of events.
pub open spec fn event_views(events: Seq<ToolEvent>) -> Seq<ToolEventView> {
    Seq::new(events.len(), |i: int| events[i]@)
}

/// A tool that a view port can activate.
#[derive(Debug)]
pub enum Tool {
    MoveDraw(MoveDrawTool),
    ClickDraw(ClickDrawTool),
    Select(SelectTool),
}

/// What a [`Tool`] holds, as mathematical values.
pub enum ToolView {
    MoveDraw(MoveDrawView),
    ClickDraw(ClickDrawView),
    Select(SelectView),
}

impl View for Tool {
    type V = ToolView;

    open spec fn view(&self) -> ToolView {
        match *self {
            Tool::MoveDraw(tool) => ToolView::MoveDraw(tool@),
            Tool::ClickDraw(tool) => ToolView::ClickDraw(tool@),
            Tool::Select(tool) => ToolView::Select(tool@),
        }
    }
}

impl ToolView {
    /// Whether the tool is in its idle state.
    pub open spec fn is_idle(self) -> bool {
        match self {
            ToolView::MoveDraw(tool) => tool.state is Idle,
            ToolView::ClickDraw(tool) => tool.state is Idle,
            ToolView::Select(tool) => tool.state is Idle,
        }
    }

    /// The events published and not yet received, oldest first.
    pub open spec fn pending(self) -> Seq<ToolEventView> {
        match self {
            ToolView::MoveDraw(tool) => tool.pending,
            ToolView::ClickDraw(tool) => tool.pending,
            ToolView::Select(tool) => tool.pending,
        }
    }

    /// The tool with `pending` as its pending events.
    pub open spec fn with_pending(self, pending: Seq<ToolEventView>) -> ToolView {
        match self {
            ToolView::MoveDraw(tool) => ToolView::MoveDraw(MoveDrawView { pending, ..tool }),
            ToolView::ClickDraw(tool) => ToolView::ClickDraw(ClickDrawView { pending, ..tool }),
            ToolView::Select(tool) => ToolView::Select(SelectView { pending, ..tool }),
        }
    }

    /// Whether the interaction makes the tool take a fresh identifier.
    pub open spec fn starts(self, interaction: Interaction, can_issue: bool) -> bool {
        match self {
            ToolView::MoveDraw(tool) => tool.starts(interaction, can_issue),
            ToolView::ClickDraw(tool) => tool.starts(interaction, can_issue),
            ToolView::Select(_) => false,
        }
    }

    /// The tool after `interaction`, on the entities `scene`, where `next`
    /// is the next index of the identifier source.
    pub open spec fn step(
        self,
        interaction: Interaction,
        scene: Seq<EntityView>,
        next: nat,
        can_issue: bool,
    ) -> ToolView {
        match self {
            ToolView::MoveDraw(tool) => ToolView::MoveDraw(tool.step(interaction, next, can_issue)),
            ToolView::ClickDraw(tool) => ToolView::ClickDraw(
                tool.step(interaction, next, can_issue),
            ),
            ToolView::Select(tool) => ToolView::Select(tool.step(interaction, scene)),
        }
    }

    /// What the tool paints over the scene.
    pub open spec fn overlay(self) -> Seq<Painted> {
        match self {
            ToolView::MoveDraw(tool) => tool.overlay(),
            ToolView::ClickDraw(tool) => tool.overlay(),
            ToolView::Select(_) => Seq::empty(),
        }
    }
}

impl Tool {
    /// The tool's own invariant.
    pub open spec fn wf(&self) -> bool {
        match *self {
            Tool::MoveDraw(tool) => tool.wf(),
            Tool::ClickDraw(tool) => tool.wf(),
            Tool::Select(tool) => tool.wf(),
        }
    }

    /// Whether the tool is in its idle state.
    pub fn is_idle(&self) -> (r: bool)
        ensures
            r == self@.is_idle(),
    {
        match self {
            Tool::MoveDraw(tool) => tool.is_idle(),
            Tool::ClickDraw(tool) => tool.is_idle(),
            Tool::Select(tool) => tool.is_idle(),
        }
    }

    /// Takes the interaction. `scene` are the entities of the view port,
    /// the last in front; `ids` issues the identifier of an entity that
    /// the interaction starts.
    pub fn interact(&mut self, interaction: Interaction, scene: &Vec<Entity>, ids: &mut IdSource)
        requires
            old(self).wf(),
        ensures
            final(self).wf(),
            final(self)@ == old(self)@.step(
                interaction,
                entity_views(scene@),
                old(ids).next_index(),
                !old(ids).exhausted(),
            ),
            final(ids).next_index() == (if old(self)@.starts(interaction, !old(ids).exhausted()) {
                old(ids).next_index() + 1
            } else {
                old(ids).next_index()
            }),
    {
        match self {
            Tool::MoveDraw(tool) => tool.interact(interaction, ids),
            Tool::ClickDraw(tool) => tool.interact(interaction, ids),
            Tool::Select(tool) => tool.interact(interaction, scene),
        }
    }

    /// Receives the oldest event that the tool published, or `None` where
    /// there is none.
    pub fn next_event(&mut self) -> (r: Option<ToolEvent>)
        requires
            old(self).wf(),
        ensures
            final(self).wf(),
            r is Some <==> old(self)@.pending().len() > 0,
            r matches Some(event) ==> event@ == old(self)@.pending()[0],
            final(self)@ == old(self)@.with_pending(
                if old(self)@.pending().len() > 0 {
                    old(self)@.pending().drop_first()
                } else {
                    old(self)@.pending()
                },
            ),
    {
        match self {
            Tool::MoveDraw(tool) => tool.next_event(),
            Tool::ClickDraw(tool) => tool.next_event(),
            Tool::Select(tool) => tool.next_event(),
        }
    }

    /// Paints what the tool shows over the scene.
    pub fn render<R: Renderer>(&self, renderer: &mut R)
        requires
            old(renderer).wf(),
        ensures
            final(renderer).wf(),
            final(renderer).state() == drawn_all::<R>(old(renderer).state(), self@.overlay()),
    {
        match self {
            Tool::MoveDraw(tool) => tool.render(renderer),
            Tool::ClickDraw(tool) => tool.render(renderer),
            Tool::Select(tool) => tool.render(renderer),
        }
    }
}

} // verus!
