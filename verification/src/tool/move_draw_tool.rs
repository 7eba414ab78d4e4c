//! The move-draw tool: press, drag, release. It draws rectangles and
//! free-hand paths.
use crate::element::id::{issued, IdSource};
use crate::element::{default_entity, Build, ElementType};
use crate::entity::{Entity, EntityView, ModelView, ShapeModel};
use crate::event_bus::EventBus;
use crate::geometry::{Point2, Rectangle};
use crate::path::PathCommand;
use crate::renderer::{drawn_all, Painted, Renderer};
use crate::text::owned;
use crate::tool::{event_views, Interaction, Key, ToolEvent, ToolEventView};
use vstd::prelude::*;

verus! {

/// The state of a move-draw tool.
#[derive(Debug, PartialEq, Eq)]
pub enum MoveDrawState {
    Idle,
    Dragging { entity: Entity, anchor: Point2 },
}

/// What a [`MoveDrawState`] holds, as mathematical values.
pub enum MoveDrawStateView {
    Idle,
    Dragging { entity: EntityView, anchor: Point2 },
}

impl View for MoveDrawState {
    type V = MoveDrawStateView;

    open spec fn view(&self) -> MoveDrawStateView {
        match *self {
            MoveDrawState::Idle => MoveDrawStateView::Idle,
            MoveDrawState::Dragging { entity, anchor } => MoveDrawStateView::Dragging {
                entity: entity@,
                anchor,
            },
        }
    }
}

/// The move-draw tool for one owner and one element kind.
#[derive(Debug)]
pub struct MoveDrawTool {
    owner_id: String,
    element_type: ElementType,
    state: MoveDrawState,
    events: EventBus<ToolEvent>,
}

/// What a [`MoveDrawTool`] holds, as mathematical values.
pub struct MoveDrawView {
    pub owner_id: Seq<char>,
    pub element_type: ElementType,
    pub state: MoveDrawStateView,
    /// The events published and not yet received, oldest first.
    pub pending: Seq<ToolEventView>,
}

impl View for MoveDrawTool {
    type V = MoveDrawView;

    closed spec fn view(&self) -> MoveDrawView {
        MoveDrawView {
            owner_id: self.owner_id@,
            element_type: self.element_type,
            state: self.state@,
            pending: event_views(self.events.pending()),
        }
    }
}

/// The entity as a drag starts at `at`: a rectangle of no extent there, a
/// path that moves there; any other model as it is.
pub open spec fn started(entity: EntityView, at: Point2) -> EntityView {
    match entity.model {
        ModelView::Rectangle { rectangle, style } => EntityView {
            model: ModelView::Rectangle {
                rectangle: Rectangle { top_left: at, opposite: at },
                style,
            },
            ..entity
        },
        ModelView::FreeHand { commands, style } => EntityView {
            model: ModelView::FreeHand { commands: commands.push(PathCommand::MoveTo(at)), style },
            ..entity
        },
        _ => entity,
    }
}

/// The entity as the pointer is dragged to `to`: a rectangle spans from
/// the anchor to there, so that its width is `to.x - anchor.x` and its
/// height `to.y - anchor.y`; a path gets a line to there; any other model
/// stays as it is.
pub open spec fn dragged(entity: EntityView, anchor: Point2, to: Point2) -> EntityView {
    match entity.model {
        ModelView::Rectangle { rectangle, style } => EntityView {
            model: ModelView::Rectangle {
                rectangle: Rectangle { top_left: anchor, opposite: to },
                style,
            },
            ..entity
        },
        ModelView::FreeHand { commands, style } => EntityView {
            model: ModelView::FreeHand { commands: commands.push(PathCommand::LineTo(to)), style },
            ..entity
        },
        _ => entity,
    }
}

/// The entity as its drawing ends: a rectangle canonicalised, any other
/// model as it is.
pub open spec fn finished(entity: EntityView) -> EntityView {
    match entity.model {
        ModelView::Rectangle { rectangle, style } => EntityView {
            model: ModelView::Rectangle { rectangle: rectangle.spec_absolute_sized(), style },
            ..entity
        },
        _ => entity,
    }
}

impl MoveDrawView {
    /// Whether the interaction starts a drag, given whether an identifier
    /// can be issued.
    pub open spec fn starts(self, interaction: Interaction, can_issue: bool) -> bool {
        self.state is Idle && interaction is PointerDown && can_issue
    }

    /// The tool after `interaction`, where `next` is the next index of the
    /// identifier source.
    ///
    /// Idle, pointer down: a fresh entity starts at the point, which becomes
    /// the anchor; where no identifier can be issued the tool stays idle.
    /// Dragging, pointer move: the entity follows. Dragging, pointer up:
    /// the entity is finished and published, the tool is idle. Dragging,
    /// Esc: the entity is discarded, the tool is idle. Anything else
    /// changes nothing.
    pub open spec fn step(
        self,
        interaction: Interaction,
        next: nat,
        can_issue: bool,
    ) -> MoveDrawView {
        match self.state {
            MoveDrawStateView::Idle => match interaction {
                Interaction::PointerDown(p, _) => if can_issue {
                    MoveDrawView {
                        state: MoveDrawStateView::Dragging {
                            entity: started(
                                default_entity(issued(next, self.owner_id, self.element_type)),
                                p,
                            ),
                            anchor: p,
                        },
                        ..self
                    }
                } else {
                    self
                },
                _ => self,
            },
            MoveDrawStateView::Dragging { entity, anchor } => match interaction {
                Interaction::PointerMove(p, _) => MoveDrawView {
                    state: MoveDrawStateView::Dragging {
                        entity: dragged(entity, anchor, p),
                        anchor,
                    },
                    ..self
                },
                Interaction::PointerUp(_, _) => MoveDrawView {
                    state: MoveDrawStateView::Idle,
                    pending: self.pending.push(ToolEventView::FinishDrawing(finished(entity))),
                    ..self
                },
                Interaction::KeyDown(Key::Esc) => MoveDrawView {
                    state: MoveDrawStateView::Idle,
                    ..self
                },
                _ => self,
            },
        }
    }

    /// What the tool paints over the scene: the entity in progress.
    pub open spec fn overlay(self) -> Seq<Painted> {
        match self.state {
            MoveDrawStateView::Idle => Seq::empty(),
            MoveDrawStateView::Dragging { entity, .. } => entity.paint(),
        }
    }

    /// The entity in progress is well formed.
    pub open spec fn wf(self) -> bool {
        match self.state {
            MoveDrawStateView::Idle => true,
            MoveDrawStateView::Dragging { entity, .. } => entity.wf(),
        }
    }
}

fn start(entity: Entity, at: Point2) -> (r: Entity)
    requires
        entity@.wf(),
    ensures
        r@ == started(entity@, at),
        r@.wf(),
{
    let (id, model, features) = entity.into_parts();
    let model = match model {
        ShapeModel::Rectangle { rectangle, style } => ShapeModel::Rectangle {
            rectangle: Rectangle::zero_sized(at),
            style,
        },
        ShapeModel::FreeHand { path, style } => {
            let mut path = path;
            path.push(PathCommand::MoveTo(at));
            ShapeModel::FreeHand { path, style }
        },
        other => other,
    };
    match Entity::new(id, model, features) {
        Some(entity) => entity,
        None => unreached(),
    }
}

fn drag(entity: Entity, anchor: Point2, to: Point2) -> (r: Entity)
    requires
        entity@.wf(),
    ensures
        r@ == dragged(entity@, anchor, to),
        r@.wf(),
{
    let (id, model, features) = entity.into_parts();
    let model = match model {
        ShapeModel::Rectangle { rectangle, style } => ShapeModel::Rectangle {
            rectangle: Rectangle::spanning(anchor, to),
            style,
        },
        ShapeModel::FreeHand { path, style } => {
            let mut path = path;
            path.push(PathCommand::LineTo(to));
            ShapeModel::FreeHand { path, style }
        },
        other => other,
    };
    match Entity::new(id, model, features) {
        Some(entity) => entity,
        None => unreached(),
    }
}

fn finish(entity: Entity) -> (r: Entity)
    requires
        entity@.wf(),
    ensures
        r@ == finished(entity@),
        r@.wf(),
{
    let (id, model, features) = entity.into_parts();
    let model = match model {
        ShapeModel::Rectangle { rectangle, style } => ShapeModel::Rectangle {
            rectangle: rectangle.absolute_sized(),
            style,
        },
        other => other,
    };
    match Entity::new(id, model, features) {
        Some(entity) => entity,
        None => unreached(),
    }
}

impl MoveDrawTool {
    /// An idle tool that draws elements of the given kind for `owner_id`.
    pub fn new(owner_id: &str, element_type: ElementType) -> (r: MoveDrawTool)
        ensures
            r@ == (MoveDrawView {
                owner_id: owner_id@,
                element_type,
                state: MoveDrawStateView::Idle,
                pending: Seq::empty(),
            }),
            r.wf(),
    {
        let r = MoveDrawTool {
            owner_id: owner(owner_id),
            element_type,
            state: MoveDrawState::Idle,
            events: EventBus::new(),
        };
        assert(r@.pending =~= Seq::<ToolEventView>::empty());
        r
    }

    /// The tool's channel is open and the entity in progress is well
    /// formed.
    pub closed spec fn wf(&self) -> bool {
        !self.events.is_closed() && self@.wf()
    }

    /// Whether the tool is idle.
    pub fn is_idle(&self) -> (r: bool)
        ensures
            r == (self@.state is Idle),
    {
        match self.state {
            MoveDrawState::Idle => true,
            _ => false,
        }
    }

    /// The entity in progress, if any.
    pub fn in_progress(&self) -> (r: Option<&Entity>)
        ensures
            r is Some <==> self@.state is Dragging,
            r matches Some(entity) ==> entity@ == self@.state->entity,
    {
        match &self.state {
            MoveDrawState::Idle => None,
            MoveDrawState::Dragging { entity, .. } => Some(entity),
        }
    }

    /// Takes the interaction; see [`MoveDrawView::step`].
    pub fn interact(&mut self, interaction: Interaction, ids: &mut IdSource)
        requires
            old(self).wf(),
        ensures
            final(self).wf(),
            final(self)@ == old(self)@.step(
                interaction,
                old(ids).next_index(),
                !old(ids).exhausted(),
            ),
            final(ids).next_index() == (if old(self)@.starts(interaction, !old(ids).exhausted()) {
                old(ids).next_index() + 1
            } else {
                old(ids).next_index()
            }),
    {
        let mut state = MoveDrawState::Idle;
        core::mem::swap(&mut self.state, &mut state);
        match state {
            MoveDrawState::Idle => match interaction {
                Interaction::PointerDown(p, _) => {
                    if !ids.is_exhausted() {
                        let entity = Build::default(self.owner_id.as_str(), self.element_type, ids);
                        let entity = start(entity, p);
                        self.state = MoveDrawState::Dragging { entity, anchor: p };
                    }
                },
                _ => {},
            },
            MoveDrawState::Dragging { entity, anchor } => match interaction {
                Interaction::PointerMove(p, _) => {
                    let entity = drag(entity, anchor, p);
                    self.state = MoveDrawState::Dragging { entity, anchor };
                },
                Interaction::PointerUp(_, _) => {
                    let done = finish(entity);
                    let ghost before = self.events.pending();
                    let _ = self.events.send(ToolEvent::FinishDrawing(done));
                    assert(event_views(self.events.pending()) =~= event_views(before).push(
                        ToolEventView::FinishDrawing(done@),
                    ));
                },
                Interaction::KeyDown(Key::Esc) => {},
                _ => {
                    self.state = MoveDrawState::Dragging { entity, anchor };
                },
            },
        }
    }

    /// Receives the oldest event that the tool published, or `None` where
    /// there is none.
    pub fn next_event(&mut self) -> (r: Option<ToolEvent>)
        requires
            old(self).wf(),
        ensures
            final(self).wf(),
            r is Some <==> old(self)@.pending.len() > 0,
            r matches Some(event) ==> event@ == old(self)@.pending[0],
            final(self)@ == (MoveDrawView {
                pending: if old(self)@.pending.len() > 0 {
                    old(self)@.pending.drop_first()
                } else {
                    old(self)@.pending
                },
                ..old(self)@
            }),
    {
        let r = self.events.recv();
        assert(self@.pending =~= (if old(self)@.pending.len() > 0 {
            old(self)@.pending.drop_first()
        } else {
            old(self)@.pending
        }));
        r
    }

    /// Paints the entity in progress.
    pub fn render<R: Renderer>(&self, renderer: &mut R)
        requires
            old(renderer).wf(),
        ensures
            final(renderer).wf(),
            final(renderer).state() == drawn_all::<R>(old(renderer).state(), self@.overlay()),
    {
        match &self.state {
            MoveDrawState::Idle => {},
            MoveDrawState::Dragging { entity, .. } => {
                entity.render(renderer);
            },
        }
    }
}

fn owner(owner_id: &str) -> (r: String)
    ensures
        r@ == owner_id@,
{
    owned(owner_id)
}

/// Drawing changes the model only: the identifier and the features of
/// the entity stay as the builder made them, and so does the kind of the
/// model.
pub proof fn lemma_drawing_keeps_identity(entity: EntityView, anchor: Point2, at: Point2)
    ensures
        started(entity, at).id == entity.id,
        dragged(entity, anchor, at).id == entity.id,
        finished(entity).id == entity.id,
        started(entity, at).features == entity.features,
        dragged(entity, anchor, at).features == entity.features,
        finished(entity).features == entity.features,
        started(entity, at).model.kind() == entity.model.kind(),
        dragged(entity, anchor, at).model.kind() == entity.model.kind(),
        finished(entity).model.kind() == entity.model.kind(),
        entity.wf() ==> started(entity, at).wf() && dragged(entity, anchor, at).wf() && finished(
            entity,
        ).wf(),
{
}

} // verus!
