//! The click-draw tool: one click per vertex, Enter to finish. It draws
//! polygons.
use crate::element::id::{issued, IdSource};
use crate::element::{default_entity, Build, ElementType};
use crate::entity::{Entity, EntityView, ModelView, ShapeModel};
use crate::event_bus::EventBus;
use crate::geometry::{Point2, Segment2D};
use crate::renderer::{drawn_all, lemma_drawn_all_push, Painted, Renderer};
use crate::style::{default_shape_style, ShapeStyle};
use crate::text::owned;
use crate::tool::{event_views, Interaction, Key, ToolEvent, ToolEventView};
use vstd::prelude::*;

verus! {

/// The state of a click-draw tool.
#[derive(Debug, PartialEq, Eq)]
pub enum ClickDrawState {
    Idle,
    /// Vertices are being placed. `preview` is where the pointer went since
    /// the last vertex, if it moved.
    Placing { entity: Entity, last_point: Point2, preview: Option<Point2> },
}

/// What a [`ClickDrawState`] holds, as mathematical values.
pub enum ClickDrawStateView {
    Idle,
    Placing { entity: EntityView, last_point: Point2, preview: Option<Point2> },
}

impl View for ClickDrawState {
    type V = ClickDrawStateView;

    open spec fn view(&self) -> ClickDrawStateView {
        match *self {
            ClickDrawState::Idle => ClickDrawStateView::Idle,
            ClickDrawState::Placing { entity, last_point, preview } => ClickDrawStateView::Placing {
                entity: entity@,
                last_point,
                preview,
            },
        }
    }
}

/// The click-draw tool for one owner and one element kind.
#[derive(Debug)]
pub struct ClickDrawTool {
    owner_id: String,
    element_type: ElementType,
    state: ClickDrawState,
    events: EventBus<ToolEvent>,
}

/// What a [`ClickDrawTool`] holds, as mathematical values.
pub struct ClickDrawView {
    pub owner_id: Seq<char>,
    pub element_type: ElementType,
    pub state: ClickDrawStateView,
    /// The events published and not yet received, oldest first.
    pub pending: Seq<ToolEventView>,
}

impl View for ClickDrawTool {
    type V = ClickDrawView;

    closed spec fn view(&self) -> ClickDrawView {
        ClickDrawView {
            owner_id: self.owner_id@,
            element_type: self.element_type,
            state: self.state@,
            pending: event_views(self.events.pending()),
        }
    }
}

/// The entity with one more vertex at `at`: a polygon gets it at the end,
/// any other model stays as it is.
pub open spec fn placed(entity: EntityView, at: Point2) -> EntityView {
    match entity.model {
        ModelView::Polygon { vertices, style } => EntityView {
            model: ModelView::Polygon { vertices: vertices.push(at), style },
            ..entity
        },
        _ => entity,
    }
}

impl ClickDrawView {
    /// Whether the interaction starts a drawing, given whether an
    /// identifier can be issued.
    pub open spec fn starts(self, interaction: Interaction, can_issue: bool) -> bool {
        self.state is Idle && interaction is PointerDown && can_issue
    }

    /// The tool after `interaction`, where `next` is the next index of the
    /// identifier source.
    ///
    /// Idle, pointer down: a fresh entity gets its first vertex at the
    /// point; where no identifier can be issued the tool stays idle.
    /// Placing, pointer move: the rubber band follows the pointer.
    /// Placing, pointer down: one more vertex. Placing, Enter: the entity
    /// is published, the tool is idle. Placing, Esc: the entity is
    /// discarded, the tool is idle. Anything else changes nothing.
    pub open spec fn step(
        self,
        interaction: Interaction,
        next: nat,
        can_issue: bool,
    ) -> ClickDrawView {
        match self.state {
            ClickDrawStateView::Idle => match interaction {
                Interaction::PointerDown(p, _) => if can_issue {
                    ClickDrawView {
                        state: ClickDrawStateView::Placing {
                            entity: placed(
                                default_entity(issued(next, self.owner_id, self.element_type)),
                                p,
                            ),
                            last_point: p,
                            preview: None,
                        },
                        ..self
                    }
                } else {
                    self
                },
                _ => self,
            },
            ClickDrawStateView::Placing { entity, last_point, preview } => match interaction {
                Interaction::PointerMove(p, _) => ClickDrawView {
                    state: ClickDrawStateView::Placing { entity, last_point, preview: Some(p) },
                    ..self
                },
                Interaction::PointerDown(p, _) => ClickDrawView {
                    state: ClickDrawStateView::Placing {
                        entity: placed(entity, p),
                        last_point: p,
                        preview: None,
                    },
                    ..self
                },
                Interaction::KeyDown(Key::Enter) => ClickDrawView {
                    state: ClickDrawStateView::Idle,
                    pending: self.pending.push(ToolEventView::FinishDrawing(entity)),
                    ..self
                },
                Interaction::KeyDown(Key::Esc) => ClickDrawView {
                    state: ClickDrawStateView::Idle,
                    ..self
                },
                _ => self,
            },
        }
    }

    /// What the tool paints over the scene: the entity in progress, then
    /// the rubber band from the last vertex to the pointer, in the default
    /// style.
    pub open spec fn overlay(self) -> Seq<Painted> {
        match self.state {
            ClickDrawStateView::Idle => Seq::empty(),
            ClickDrawStateView::Placing { entity, last_point, preview } => match preview {
                Some(p) => entity.paint().push(
                    Painted::Segment(
                        Segment2D { start: last_point, end: p },
                        default_shape_style(),
                        None,
                    ),
                ),
                None => entity.paint(),
            },
        }
    }

    /// The entity in progress is well formed.
    pub open spec fn wf(self) -> bool {
        match self.state {
            ClickDrawStateView::Idle => true,
            ClickDrawStateView::Placing { entity, .. } => entity.wf(),
        }
    }
}

fn place(entity: Entity, at: Point2) -> (r: Entity)
    requires
        entity@.wf(),
    ensures
        r@ == placed(entity@, at),
        r@.wf(),
{
    let (id, model, features) = entity.into_parts();
    let model = match model {
        ShapeModel::Polygon { polygon, style } => {
            let mut polygon = polygon;
            polygon.push(at);
            ShapeModel::Polygon { polygon, style }
        },
        other => other,
    };
    match Entity::new(id, model, features) {
        Some(entity) => entity,
        None => unreached(),
    }
}

impl ClickDrawTool {
    /// An idle tool that draws elements of the given kind for `owner_id`.
    pub fn new(owner_id: &str, element_type: ElementType) -> (r: ClickDrawTool)
        ensures
            r@ == (ClickDrawView {
                owner_id: owner_id@,
                element_type,
                state: ClickDrawStateView::Idle,
                pending: Seq::empty(),
            }),
            r.wf(),
    {
        let r = ClickDrawTool {
            owner_id: owned(owner_id),
            element_type,
            state: ClickDrawState::Idle,
            events: EventBus::new(),
        };
        assert(r@.pending =~= Seq::<ToolEventView>::empty());
        r
    }

    /// The tool's channel is open and the entity in progress is well
    /// formed.
    pub closed spec fn wf(&self) -> bool {
        !self.events.is_closed() && self@.wf()
    }

    /// Whether the tool is idle.
    pub fn is_idle(&self) -> (r: bool)
        ensures
            r == (self@.state is Idle),
    {
        match self.state {
            ClickDrawState::Idle => true,
            _ => false,
        }
    }

    /// The entity in progress, if any.
    pub fn in_progress(&self) -> (r: Option<&Entity>)
        ensures
            r is Some <==> self@.state is Placing,
            r matches Some(entity) ==> entity@ == self@.state->entity,
    {
        match &self.state {
            ClickDrawState::Idle => None,
            ClickDrawState::Placing { entity, .. } => Some(entity),
        }
    }

    /// Takes the interaction; see [`ClickDrawView::step`].
    pub fn interact(&mut self, interaction: Interaction, ids: &mut IdSource)
        requires
            old(self).wf(),
        ensures
            final(self).wf(),
            final(self)@ == old(self)@.step(
                interaction,
                old(ids).next_index(),
                !old(ids).exhausted(),
            ),
            final(ids).next_index() == (if old(self)@.starts(interaction, !old(ids).exhausted()) {
                old(ids).next_index() + 1
            } else {
                old(ids).next_index()
            }),
    {
        let mut state = ClickDrawState::Idle;
        core::mem::swap(&mut self.state, &mut state);
        match state {
            ClickDrawState::Idle => match interaction {
                Interaction::PointerDown(p, _) => {
                    if !ids.is_exhausted() {
                        let entity = Build::default(self.owner_id.as_str(), self.element_type, ids);
                        self.state = ClickDrawState::Placing {
                            entity: place(entity, p),
                            last_point: p,
                            preview: None,
                        };
                    }
                },
                _ => {},
            },
            ClickDrawState::Placing { entity, last_point, preview } => match interaction {
                Interaction::PointerMove(p, _) => {
                    self.state = ClickDrawState::Placing { entity, last_point, preview: Some(p) };
                },
                Interaction::PointerDown(p, _) => {
                    self.state = ClickDrawState::Placing {
                        entity: place(entity, p),
                        last_point: p,
                        preview: None,
                    };
                },
                Interaction::KeyDown(Key::Enter) => {
                    let ghost before = self.events.pending();
                    let ghost done = entity@;
                    let _ = self.events.send(ToolEvent::FinishDrawing(entity));
                    assert(event_views(self.events.pending()) =~= event_views(before).push(
                        ToolEventView::FinishDrawing(done),
                    ));
                },
                Interaction::KeyDown(Key::Esc) => {},
                _ => {
                    self.state = ClickDrawState::Placing { entity, last_point, preview };
                },
            },
        }
    }

    /// Receives the oldest event that the tool published, or `None` where
    /// there is none.
    pub fn next_event(&mut self) -> (r: Option<ToolEvent>)
        requires
            old(self).wf(),
        ensures
            final(self).wf(),
            r is Some <==> old(self)@.pending.len() > 0,
            r matches Some(event) ==> event@ == old(self)@.pending[0],
            final(self)@ == (ClickDrawView {
                pending: if old(self)@.pending.len() > 0 {
                    old(self)@.pending.drop_first()
                } else {
                    old(self)@.pending
                },
                ..old(self)@
            }),
    {
        let r = self.events.recv();
        assert(self@.pending =~= (if old(self)@.pending.len() > 0 {
            old(self)@.pending.drop_first()
        } else {
            old(self)@.pending
        }));
        r
    }

    /// Paints the entity in progress and the rubber band.
    pub fn render<R: Renderer>(&self, renderer: &mut R)
        requires
            old(renderer).wf(),
        ensures
            final(renderer).wf(),
            final(renderer).state() == drawn_all::<R>(old(renderer).state(), self@.overlay()),
    {
        match &self.state {
            ClickDrawState::Idle => {},
            ClickDrawState::Placing { entity, last_point, preview } => {
                entity.render(renderer);
                match preview {
                    Some(p) => {
                        let band = Segment2D::new(*last_point, *p);
                        let style = ShapeStyle::default();
                        renderer.segment(&band, &style, None);
                        proof {
                            lemma_drawn_all_push::<R>(
                                old(renderer).state(),
                                entity@.paint(),
                                Painted::Segment(band, style@, None),
                            );
                        }
                    },
                    None => {},
                }
            },
        }
    }
}

/// Placing a vertex changes the model only: the identifier and the
/// features of the entity stay as the builder made them, and so does the
/// kind of the model.
pub proof fn lemma_placing_keeps_identity(entity: EntityView, at: Point2)
    ensures
        placed(entity, at).id == entity.id,
        placed(entity, at).features == entity.features,
        placed(entity, at).model.kind() == entity.model.kind(),
        entity.wf() ==> placed(entity, at).wf(),
{
}

} // verus!
