//! The select tool: press an entity to select it, drag to move it, Delete
//! or Backspace to remove it.
use crate::element::id::{Id, IdView};
use crate::entity::{entity_views, Entity, EntityView};
use crate::event_bus::EventBus;
use crate::geometry::Point2;
use crate::renderer::Renderer;
use crate::tool::{event_views, Interaction, Key, ToolEvent, ToolEventView};
use vstd::prelude::*;

verus! {

/// How far, in either direction, the pointer must go from where it was
/// pressed before the press becomes a drag.
pub const DRAG_THRESHOLD: i64 = 3;

/// The state of a select tool.
#[derive(Debug, PartialEq, Eq)]
pub enum SelectState {
    Idle,
    /// An entity is pressed at `origin` and not yet dragged.
    Pressed { entity_id: Id, origin: Point2 },
    /// An entity is dragged; the pointer was last at `last_point`.
    Moving { entity_id: Id, last_point: Point2 },
}

/// What a [`SelectState`] holds, as mathematical values.
pub enum SelectStateView {
    Idle,
    Pressed { entity_id: IdView, origin: Point2 },
    Moving { entity_id: IdView, last_point: Point2 },
}

impl View for SelectState {
    type V = SelectStateView;

    open spec fn view(&self) -> SelectStateView {
        match *self {
            SelectState::Idle => SelectStateView::Idle,
            SelectState::Pressed { entity_id, origin } => SelectStateView::Pressed {
                entity_id: entity_id@,
                origin,
            },
            SelectState::Moving { entity_id, last_point } => SelectStateView::Moving {
                entity_id: entity_id@,
                last_point,
            },
        }
    }
}

/// The select tool.
#[derive(Debug)]
pub struct SelectTool {
    state: SelectState,
    selected: Option<Id>,
    events: EventBus<ToolEvent>,
}

/// What a [`SelectTool`] holds, as mathematical values.
pub struct SelectView {
    pub state: SelectStateView,
    /// The identifier of the entity selected last, if it is still
    /// remembered.
    pub selected: Option<IdView>,
    /// The events published and not yet received, oldest first.
    pub pending: Seq<ToolEventView>,
}

impl View for SelectTool {
    type V = SelectView;

    closed spec fn view(&self) -> SelectView {
        SelectView {
            state: self.state@,
            selected: match self.selected {
                Some(id) => Some(id@),
                None => None,
            },
            pending: event_views(self.events.pending()),
        }
    }
}

/// The index of the frontmost entity of `scene` that `p` hits, the last
/// being in front; `-1` where `p` hits none.
pub open spec fn top_hit(scene: Seq<EntityView>, p: Point2) -> int
    decreases scene.len(),
{
    if scene.len() == 0 {
        -1
    } else if scene.last().hit(p) {
        scene.len() - 1
    } else {
        top_hit(scene.drop_last(), p)
    }
}

/// `top_hit` is `-1` or the index of an entity that is hit, and no entity
/// in front of it is hit.
pub proof fn lemma_top_hit(scene: Seq<EntityView>, p: Point2)
    ensures
        -1 <= top_hit(scene, p) < scene.len(),
        top_hit(scene, p) >= 0 ==> scene[top_hit(scene, p)].hit(p),
        forall|k: int| top_hit(scene, p) < k < scene.len() ==> !(#[trigger] scene[k]).hit(p),
    decreases scene.len(),
{
    if scene.len() > 0 && !scene.last().hit(p) {
        lemma_top_hit(scene.drop_last(), p);
        let top = top_hit(scene, p);
        assert forall|k: int| top < k < scene.len() implies !(#[trigger] scene[k]).hit(p) by {
            if k < scene.len() - 1 {
                assert(scene.drop_last()[k] == scene[k]);
            }
        }
    }
}

/// Whether the pointer went further than the drag threshold from `from`
/// to `to`, in either direction.
pub open spec fn exceeds_threshold(from: Point2, to: Point2) -> bool {
    ||| to.x - from.x > DRAG_THRESHOLD
    ||| from.x - to.x > DRAG_THRESHOLD
    ||| to.y - from.y > DRAG_THRESHOLD
    ||| from.y - to.y > DRAG_THRESHOLD
}

impl SelectView {
    /// The tool after `interaction` on the entities `scene`, the last of
    /// which is in front.
    ///
    /// Idle, pointer down: the frontmost entity hit is pressed and
    /// selected; where none is hit, nothing is selected any more. Idle,
    /// Delete or Backspace: the removal of the selected entity is
    /// published and nothing is selected any more. Pressed, pointer move
    /// beyond the threshold: the entity is moving, from that point on.
    /// Moving, pointer move: the move by the displacement since the last
    /// point is published. Pressed or moving, pointer up: the tool is
    /// idle. Anything else changes nothing.
    pub open spec fn step(self, interaction: Interaction, scene: Seq<EntityView>) -> SelectView {
        match self.state {
            SelectStateView::Idle => match interaction {
                Interaction::PointerDown(p, _) => {
                    let at = top_hit(scene, p);
                    if 0 <= at < scene.len() {
                        SelectView {
                            state: SelectStateView::Pressed { entity_id: scene[at].id, origin: p },
                            selected: Some(scene[at].id),
                            ..self
                        }
                    } else {
                        SelectView { selected: None, ..self }
                    }
                },
                Interaction::KeyDown(key) => if key == Key::Delete || key == Key::Backspace {
                    match self.selected {
                        Some(id) => SelectView {
                            selected: None,
                            pending: self.pending.push(ToolEventView::Remove { id }),
                            ..self
                        },
                        None => self,
                    }
                } else {
                    self
                },
                _ => self,
            },
            SelectStateView::Pressed { entity_id, origin } => match interaction {
                Interaction::PointerMove(p, _) => if exceeds_threshold(origin, p) {
                    SelectView {
                        state: SelectStateView::Moving { entity_id, last_point: p },
                        ..self
                    }
                } else {
                    self
                },
                Interaction::PointerUp(_, _) => SelectView { state: SelectStateView::Idle, ..self },
                _ => self,
            },
            SelectStateView::Moving { entity_id, last_point } => match interaction {
                Interaction::PointerMove(p, _) => SelectView {
                    state: SelectStateView::Moving { entity_id, last_point: p },
                    pending: self.pending.push(
                        ToolEventView::Translate {
                            id: entity_id,
                            by: last_point.spec_displacement_to(p),
                        },
                    ),
                    ..self
                },
                Interaction::PointerUp(_, _) => SelectView { state: SelectStateView::Idle, ..self },
                _ => self,
            },
        }
    }
}

fn beyond_threshold(from: Point2, to: Point2) -> (r: bool)
    ensures
        r == exceeds_threshold(from, to),
{
    let dx: i64 = to.x as i64 - from.x as i64;
    let dy: i64 = to.y as i64 - from.y as i64;
    dx > DRAG_THRESHOLD || -dx > DRAG_THRESHOLD || dy > DRAG_THRESHOLD || -dy > DRAG_THRESHOLD
}

/// The index of the frontmost entity of `scene` that `p` hits, or `None`
/// where `p` hits none.
pub fn hit_on_top(scene: &Vec<Entity>, p: Point2) -> (r: Option<usize>)
    ensures
        r is Some <==> top_hit(entity_views(scene@), p) >= 0,
        r matches Some(at) ==> at == top_hit(entity_views(scene@), p) && at < scene@.len(),
{
    let ghost views = entity_views(scene@);
    let mut i: usize = scene.len();
    assert(views.take(i as int) =~= views);
    while i > 0
        invariant
            i <= scene.len(),
            views == entity_views(scene@),
            top_hit(views, p) == top_hit(views.take(i as int), p),
        decreases i,
    {
        assert(views.take(i as int).drop_last() =~= views.take(i as int - 1));
        if scene[i - 1].hit_test(p) {
            return Some(i - 1);
        }
        i -= 1;
    }
    None
}

impl SelectTool {
    /// An idle tool with nothing selected.
    pub fn new() -> (r: SelectTool)
        ensures
            r@ == (SelectView {
                state: SelectStateView::Idle,
                selected: None,
                pending: Seq::empty(),
            }),
            r.wf(),
    {
        let r = SelectTool { state: SelectState::Idle, selected: None, events: EventBus::new() };
        assert(r@.pending =~= Seq::<ToolEventView>::empty());
        r
    }

    /// The tool's channel is open.
    pub closed spec fn wf(&self) -> bool {
        !self.events.is_closed()
    }

    /// Whether the tool is idle.
    pub fn is_idle(&self) -> (r: bool)
        ensures
            r == (self@.state is Idle),
    {
        match self.state {
            SelectState::Idle => true,
            _ => false,
        }
    }

    /// The identifier of the entity selected last, if it is still
    /// remembered.
    pub fn selected(&self) -> (r: Option<&Id>)
        ensures
            r is Some <==> self@.selected is Some,
            r matches Some(id) ==> id@ == self@.selected->0,
    {
        match &self.selected {
            Some(id) => Some(id),
            None => None,
        }
    }

    fn publish(&mut self, event: ToolEvent)
        requires
            old(self).wf(),
        ensures
            final(self).wf(),
            final(self)@.pending == old(self)@.pending.push(event@),
            final(self).state == old(self).state,
            final(self).selected == old(self).selected,
    {
        let _ = self.events.send(event);
    }

    /// Takes the interaction; see [`SelectView::step`]. `scene` are the
    /// entities of the view port, the last in front.
    pub fn interact(&mut self, interaction: Interaction, scene: &Vec<Entity>)
        requires
            old(self).wf(),
        ensures
            final(self).wf(),
            final(self)@ == old(self)@.step(interaction, entity_views(scene@)),
    {
        let mut state = SelectState::Idle;
        core::mem::swap(&mut self.state, &mut state);
        match state {
            SelectState::Idle => match interaction {
                Interaction::PointerDown(p, _) => {
                    proof {
                        lemma_top_hit(entity_views(scene@), p);
                    }
                    match hit_on_top(scene, p) {
                        Some(at) => {
                            self.state = SelectState::Pressed {
                                entity_id: scene[at].id().duplicate(),
                                origin: p,
                            };
                            self.selected = Some(scene[at].id().duplicate());
                        },
                        None => {
                            self.selected = None;
                        },
                    }
                },
                Interaction::KeyDown(key) => {
                    if key == Key::Delete || key == Key::Backspace {
                        let selected = self.selected.take();
                        match selected {
                            Some(id) => {
                                self.publish(ToolEvent::Remove { id });
                            },
                            None => {},
                        }
                    }
                },
                _ => {},
            },
            SelectState::Pressed { entity_id, origin } => match interaction {
                Interaction::PointerMove(p, _) => {
                    if beyond_threshold(origin, p) {
                        self.state = SelectState::Moving { entity_id, last_point: p };
                    } else {
                        self.state = SelectState::Pressed { entity_id, origin };
                    }
                },
                Interaction::PointerUp(_, _) => {},
                _ => {
                    self.state = SelectState::Pressed { entity_id, origin };
                },
            },
            SelectState::Moving { entity_id, last_point } => match interaction {
                Interaction::PointerMove(p, _) => {
                    let by = last_point.displacement_to(p);
                    let id = entity_id.duplicate();
                    self.state = SelectState::Moving { entity_id, last_point: p };
                    self.publish(ToolEvent::Translate { id, by });
                },
                Interaction::PointerUp(_, _) => {},
                _ => {
                    self.state = SelectState::Moving { entity_id, last_point };
                },
            },
        }
    }

    /// Receives the oldest event that the tool published, or `None` where
    /// there is none.
    pub fn next_event(&mut self) -> (r: Option<ToolEvent>)
        requires
            old(self).wf(),
        ensures
            final(self).wf(),
            r is Some <==> old(self)@.pending.len() > 0,
            r matches Some(event) ==> event@ == old(self)@.pending[0],
            final(self)@ == (SelectView {
                pending: if old(self)@.pending.len() > 0 {
                    old(self)@.pending.drop_first()
                } else {
                    old(self)@.pending
                },
                ..old(self)@
            }),
    {
        let r = self.events.recv();
        assert(self@.pending =~= (if old(self)@.pending.len() > 0 {
            old(self)@.pending.drop_first()
        } else {
            old(self)@.pending
        }));
        r
    }

    /// The select tool paints nothing over the scene.
    pub fn render<R: Renderer>(&self, renderer: &mut R)
        requires
            old(renderer).wf(),
        ensures
            final(renderer).wf(),
            final(renderer).state() == old(renderer).state(),
    {
    }
}

} // verus!
