//! The view port: it owns the entities in paint order and the active
//! tool, applies what the tool publishes, and paints the scene. Reads and
//! writes go through one reader/writer lock.
use crate::element::id::{Id, IdSource, IdView};
use crate::entity::{entity_views, Entity, EntityView};
use crate::renderer::{
    added_all, drawn_all, lemma_drawn_all_concat, Painted, Renderer, RendererIncremental,
};
use crate::search::{first_index, lemma_first_index_is};
use crate::element::id::issued;
use crate::element::default_entity;
use crate::geometry::Point2;
use crate::tool::move_draw_tool::{dragged, finished, started};
use crate::tool::{Interaction, Key, PointingDevice, Tool, ToolEvent, ToolEventView, ToolView};
use vstd::prelude::*;

verus! {

/// The lock of a view port could not be acquired. It holds the reason in
/// words.
#[derive(Copy, Clone, Debug, PartialEq, Eq)]
pub struct LockError(pub &'static str);

/// The reason that every failure to acquire the lock gives.
pub open spec fn lock_failure() -> Seq<char> {
    "Failed to acquire lock"@
}

fn locked() -> (r: LockError)
    ensures
        r.0@ == lock_failure(),
{
    LockError("Failed to acquire lock")
}

/// The state of the lock of a view port.
#[derive(Copy, Clone, Debug, PartialEq, Eq, Hash, Structural)]
pub enum LockState {
    /// Nobody holds the lock.
    Free,
    /// A writer holds the lock.
    Writing,
    /// A writer gave up in the middle of an update.
    Poisoned,
}

/// The owner of the entities and of the active tool.
#[derive(Debug)]
pub struct ViewPort {
    entities: Vec<Entity>,
    active_tool: Option<Tool>,
    lock: LockState,
}

/// What a [`ViewPort`] holds, as mathematical values.
pub struct ViewPortView {
    /// The entities in insertion order, which is paint order: the first
    /// is at the back.
    pub entities: Seq<EntityView>,
    pub active_tool: Option<ToolView>,
    pub lock: LockState,
}

impl View for ViewPort {
    type V = ViewPortView;

    closed spec fn view(&self) -> ViewPortView {
        ViewPortView {
            entities: entity_views(self.entities@),
            active_tool: match self.active_tool {
                Some(tool) => Some(tool@),
                None => None,
            },
            lock: self.lock,
        }
    }
}

/// The condition of having the identifier `id`.
pub open spec fn identified_by(id: IdView) -> spec_fn(EntityView) -> bool {
    |entity: EntityView| entity.id == id
}

/// The index in `entities` of the first entity with the identifier `id`,
/// or the length of `entities` where there is none.
pub open spec fn entity_position(entities: Seq<EntityView>, id: IdView) -> int {
    first_index(entities, identified_by(id))
}

/// The entities after one event of a tool: a finished entity comes last,
/// that is in front; the entity that a move names is moved where it can
/// be; the entity that a removal names leaves. An event that names no
/// entity changes nothing.
pub open spec fn applied(entities: Seq<EntityView>, event: ToolEventView) -> Seq<EntityView> {
    match event {
        ToolEventView::FinishDrawing(entity) => entities.push(entity),
        ToolEventView::Translate { id, by } => {
            let at = entity_position(entities, id);
            if 0 <= at < entities.len() && entities[at].movable(by) {
                entities.update(at, entities[at].moved(by))
            } else {
                entities
            }
        },
        ToolEventView::Remove { id } => {
            let at = entity_position(entities, id);
            if 0 <= at < entities.len() {
                entities.remove(at)
            } else {
                entities
            }
        },
    }
}

/// The entities after the events of a tool, oldest first.
pub open spec fn applied_all(entities: Seq<EntityView>, events: Seq<ToolEventView>) -> Seq<
    EntityView,
>
    decreases events.len(),
{
    if events.len() == 0 {
        entities
    } else {
        applied_all(applied(entities, events[0]), events.drop_first())
    }
}

/// What the entities paint, each through its render feature, in their
/// order.
pub open spec fn paint_each(entities: Seq<EntityView>) -> Seq<Painted>
    decreases entities.len(),
{
    if entities.len() == 0 {
        Seq::empty()
    } else {
        paint_each(entities.drop_last()) + entities.last().paint()
    }
}

impl ViewPortView {
    /// What the active tool paints over the scene.
    pub open spec fn overlay(self) -> Seq<Painted> {
        match self.active_tool {
            Some(tool) => tool.overlay(),
            None => Seq::empty(),
        }
    }

    /// What one frame paints after the clear: each entity in insertion
    /// order, then the overlay of the active tool.
    pub open spec fn frame(self) -> Seq<Painted> {
        paint_each(self.entities) + self.overlay()
    }

    /// The view port after `interaction`, where `next` is the next index
    /// of the identifier source. With the lock free and a tool active, the
    /// tool takes the interaction and the view port applies what the tool
    /// has published, oldest first; otherwise nothing changes.
    pub open spec fn interacted(
        self,
        interaction: Interaction,
        next: nat,
        can_issue: bool,
    ) -> ViewPortView {
        if self.lock is Free {
            match self.active_tool {
                Some(tool) => {
                    let stepped = tool.step(interaction, self.entities, next, can_issue);
                    ViewPortView {
                        entities: applied_all(self.entities, stepped.pending()),
                        active_tool: Some(stepped.with_pending(Seq::empty())),
                        lock: LockState::Free,
                    }
                },
                None => self,
            }
        } else {
            self
        }
    }

    /// Whether `interaction` takes a fresh identifier.
    pub open spec fn issues(self, interaction: Interaction, can_issue: bool) -> bool {
        self.lock is Free && self.active_tool is Some && self.active_tool->0.starts(
            interaction,
            can_issue,
        )
    }
}

/// The index of the first entity with the identifier `id`, or the number
/// of entities where there is none.
fn position_of(entities: &Vec<Entity>, id: &Id) -> (r: usize)
    ensures
        r == entity_position(entity_views(entities@), id@),
        r <= entities@.len(),
{
    let ghost views = entity_views(entities@);
    let ghost wanted = identified_by(id@);
    let mut i: usize = 0;
    while i < entities.len()
        invariant
            i <= entities.len(),
            views == entity_views(entities@),
            wanted == identified_by(id@),
            forall|k: int| 0 <= k < i ==> !wanted(#[trigger] views[k]),
        decreases entities.len() - i,
    {
        if entities[i].id().same(id) {
            proof {
                lemma_first_index_is(views, wanted, i as int);
            }
            return i;
        }
        i += 1;
    }
    proof {
        lemma_first_index_is(views, wanted, i as int);
    }
    i
}

/// Applies one event of a tool to the entities.
fn apply(entities: &mut Vec<Entity>, event: ToolEvent)
    ensures
        entity_views(final(entities)@) == applied(entity_views(old(entities)@), event@),
{
    match event {
        ToolEvent::FinishDrawing(entity) => {
            entities.push(entity);
        },
        ToolEvent::Translate { id, by } => {
            let at = position_of(entities, &id);
            if at < entities.len() {
                let mut entity = entities.remove(at);
                let _ = entity.translate(by);
                entities.insert(at, entity);
            }
        },
        ToolEvent::Remove { id } => {
            let at = position_of(entities, &id);
            if at < entities.len() {
                let _ = entities.remove(at);
            }
        },
    }
}

impl ViewPort {
    /// The invariant of the active tool.
    pub closed spec fn wf(&self) -> bool {
        match self.active_tool {
            Some(tool) => tool.wf(),
            None => true,
        }
    }

    /// A view port without entities and without tool; its lock is free.
    pub fn new() -> (r: ViewPort)
        ensures
            r.wf(),
            r@ == (ViewPortView {
                entities: Seq::empty(),
                active_tool: None,
                lock: LockState::Free,
            }),
    {
        let r = ViewPort { entities: Vec::new(), active_tool: None, lock: LockState::Free };
        assert(r@.entities =~= Seq::<EntityView>::empty());
        r
    }

    /// The entities in insertion order.
    pub fn entities(&self) -> (r: &Vec<Entity>)
        ensures
            entity_views(r@) == self@.entities,
    {
        &self.entities
    }

    /// The active tool, if there is one.
    pub fn active_tool(&self) -> (r: Option<&Tool>)
        ensures
            r is Some <==> self@.active_tool is Some,
            r matches Some(tool) ==> tool@ == self@.active_tool->0 && (self.wf() ==> tool.wf()),
    {
        match &self.active_tool {
            Some(tool) => Some(tool),
            None => None,
        }
    }

    /// The state of the lock.
    pub fn lock_state(&self) -> (r: LockState)
        ensures
            r == self@.lock,
    {
        self.lock
    }

    /// Acquires the writer. Fails with `LockError`, and changes nothing,
    /// where the lock is not free.
    pub fn begin_write(&mut self) -> (r: Result<(), LockError>)
        ensures
            final(self).wf() == old(self).wf(),
            r is Ok <==> old(self)@.lock is Free,
            r matches Err(error) ==> error.0@ == lock_failure(),
            final(self)@ == (ViewPortView {
                lock: if r is Ok {
                    LockState::Writing
                } else {
                    old(self)@.lock
                },
                ..old(self)@
            }),
    {
        match self.lock {
            LockState::Free => {
                self.lock = LockState::Writing;
                Ok(())
            },
            _ => Err(locked()),
        }
    }

    /// Releases the writer: a lock that a writer holds becomes free. Any
    /// other lock stays as it is.
    pub fn end_write(&mut self)
        ensures
            final(self).wf() == old(self).wf(),
            final(self)@ == (ViewPortView {
                lock: if old(self)@.lock is Writing {
                    LockState::Free
                } else {
                    old(self)@.lock
                },
                ..old(self)@
            }),
    {
        match self.lock {
            LockState::Writing => {
                self.lock = LockState::Free;
            },
            _ => {},
        }
    }

    /// Gives up a write in the middle: a lock that a writer holds becomes
    /// poisoned, and stays so. Any other lock stays as it is.
    pub fn abandon_write(&mut self)
        ensures
            final(self).wf() == old(self).wf(),
            final(self)@ == (ViewPortView {
                lock: if old(self)@.lock is Writing {
                    LockState::Poisoned
                } else {
                    old(self)@.lock
                },
                ..old(self)@
            }),
    {
        match self.lock {
            LockState::Writing => {
                self.lock = LockState::Poisoned;
            },
            _ => {},
        }
    }

    /// Appends `entity`, which is then in front of all others. Fails with
    /// `LockError`, and changes nothing, where the lock is not free.
    pub fn add_entity(&mut self, entity: Entity) -> (r: Result<(), LockError>)
        ensures
            final(self).wf() == old(self).wf(),
            r is Ok <==> old(self)@.lock is Free,
            r matches Err(error) ==> error.0@ == lock_failure(),
            final(self)@ == (ViewPortView {
                entities: if r is Ok {
                    old(self)@.entities.push(entity@)
                } else {
                    old(self)@.entities
                },
                ..old(self)@
            }),
    {
        match self.lock {
            LockState::Free => {
                self.entities.push(entity);
                assert(entity_views(self.entities@) =~= entity_views(old(self).entities@).push(
                    entity@,
                ));
                Ok(())
            },
            _ => Err(locked()),
        }
    }

    /// Makes `tool` the active tool, in place of the one before. Fails with
    /// `LockError`, and changes nothing, where the lock is not free.
    pub fn activate_tool(&mut self, tool: Tool) -> (r: Result<(), LockError>)
        requires
            old(self).wf(),
            tool.wf(),
        ensures
            final(self).wf(),
            r is Ok <==> old(self)@.lock is Free,
            r matches Err(error) ==> error.0@ == lock_failure(),
            final(self)@ == (ViewPortView {
                active_tool: if r is Ok {
                    Some(tool@)
                } else {
                    old(self)@.active_tool
                },
                ..old(self)@
            }),
    {
        match self.lock {
            LockState::Free => {
                self.active_tool = Some(tool);
                Ok(())
            },
            _ => Err(locked()),
        }
    }

    /// Forwards `interaction` to the active tool and applies what the tool
    /// has published, oldest first. Without a tool nothing changes. Fails
    /// with `LockError`, and changes nothing, where the lock is not free.
    pub fn interaction_event(&mut self, interaction: Interaction, ids: &mut IdSource) -> (r: Result<
        (),
        LockError,
    >)
        requires
            old(self).wf(),
        ensures
            final(self).wf(),
            r is Ok <==> old(self)@.lock is Free,
            r matches Err(error) ==> error.0@ == lock_failure(),
            final(self)@ == old(self)@.interacted(
                interaction,
                old(ids).next_index(),
                !old(ids).exhausted(),
            ),
            final(ids).next_index() == (if old(self)@.issues(interaction, !old(ids).exhausted()) {
                old(ids).next_index() + 1
            } else {
                old(ids).next_index()
            }),
    {
        match self.lock {
            LockState::Free => {},
            _ => {
                return Err(locked());
            },
        }
        let slot = self.active_tool.take();
        match slot {
            Some(tool) => {
                let mut tool = tool;
                let ghost scene = entity_views(self.entities@);
                tool.interact(interaction, &self.entities, ids);
                let ghost stepped = tool@;
                loop
                    invariant
                        tool.wf(),
                        tool@ == stepped.with_pending(tool@.pending()),
                        applied_all(entity_views(self.entities@), tool@.pending()) == applied_all(
                            scene,
                            stepped.pending(),
                        ),
                        self.lock == old(self).lock,
                        self.active_tool is None,
                    ensures
                        tool.wf(),
                        tool@ == stepped.with_pending(Seq::empty()),
                        entity_views(self.entities@) == applied_all(scene, stepped.pending()),
                        self.lock == old(self).lock,
                        self.active_tool is None,
                    decreases tool@.pending().len(),
                {
                    match tool.next_event() {
                        Some(event) => {
                            apply(&mut self.entities, event);
                        },
                        None => {
                            assert(tool@.pending() =~= Seq::<ToolEventView>::empty());
                            break ;
                        },
                    }
                }
                self.active_tool = Some(tool);
                Ok(())
            },
            None => Ok(()),
        }
    }

    /// Paints one frame: a clear, then each entity in insertion order
    /// through its render feature, then the overlay of the active tool.
    /// The lock is taken for reading without waiting: where it is not free
    /// the frame is skipped, nothing is painted, and `false` comes back.
    pub fn render<R: Renderer>(&self, renderer: &mut R) -> (r: bool)
        requires
            self.wf(),
            old(renderer).wf(),
        ensures
            final(renderer).wf(),
            r == (self@.lock is Free),
            r ==> final(renderer).state() == drawn_all::<R>(
                R::cleared(old(renderer).state()),
                self@.frame(),
            ),
            !r ==> final(renderer).state() == old(renderer).state(),
    {
        match self.lock {
            LockState::Free => {},
            _ => {
                return false;
            },
        }
        renderer.clear();
        let ghost start = renderer.state();
        let ghost views = entity_views(self.entities@);
        let mut i: usize = 0;
        while i < self.entities.len()
            invariant
                i <= self.entities.len(),
                views == entity_views(self.entities@),
                renderer.wf(),
                renderer.state() == drawn_all::<R>(start, paint_each(views.take(i as int))),
            decreases self.entities.len() - i,
        {
            proof {
                assert(views.take(i as int + 1).drop_last() =~= views.take(i as int));
                lemma_drawn_all_concat::<R>(
                    start,
                    paint_each(views.take(i as int)),
                    views[i as int].paint(),
                );
            }
            self.entities[i].render(renderer);
            i += 1;
        }
        assert(views.take(i as int) =~= views);
        match &self.active_tool {
            Some(tool) => {
                tool.render(renderer);
            },
            None => {},
        }
        proof {
            lemma_drawn_all_concat::<R>(start, paint_each(views), self@.overlay());
        }
        true
    }

    /// Brings a retained scene graph up to the scene: it is cleared, each
    /// entity is added in insertion order, and the overlay of the active
    /// tool is painted over them. Where the lock is not free the backend
    /// stays as it is and `false` comes back.
    pub fn render_retained<R: RendererIncremental>(&self, renderer: &mut R) -> (r: bool)
        requires
            self.wf(),
            old(renderer).wf(),
        ensures
            final(renderer).wf(),
            r == (self@.lock is Free),
            r ==> final(renderer).state() == drawn_all::<R>(
                added_all::<R>(R::cleared(old(renderer).state()), self@.entities),
                self@.overlay(),
            ),
            !r ==> final(renderer).state() == old(renderer).state(),
    {
        match self.lock {
            LockState::Free => {},
            _ => {
                return false;
            },
        }
        renderer.clear();
        let ghost start = renderer.state();
        let ghost views = entity_views(self.entities@);
        let mut i: usize = 0;
        assert(views.take(0) =~= Seq::<EntityView>::empty());
        while i < self.entities.len()
            invariant
                i <= self.entities.len(),
                views == entity_views(self.entities@),
                renderer.wf(),
                renderer.state() == added_all::<R>(start, views.take(i as int)),
            decreases self.entities.len() - i,
        {
            proof {
                assert(views.take(i as int + 1).drop_last() =~= views.take(i as int));
                assert(views.take(i as int + 1).last() == views[i as int]);
            }
            renderer.add(&self.entities[i]);
            i += 1;
        }
        assert(views.take(i as int) =~= views);
        match &self.active_tool {
            Some(tool) => {
                tool.render(renderer);
            },
            None => {},
        }
        true
    }
}

/// What a sequence of entities paints is what its parts paint, one after
/// the other: each entity paints once, in its place.
pub proof fn lemma_paint_each_concat(first: Seq<EntityView>, second: Seq<EntityView>)
    ensures
        paint_each(first + second) == paint_each(first) + paint_each(second),
        second.len() == 1 ==> paint_each(second) == second[0].paint(),
    decreases second.len(),
{
    if second.len() > 0 {
        lemma_paint_each_concat(first, second.drop_last());
        assert((first + second).drop_last() =~= first + second.drop_last());
    }
}

/// Applying no event changes nothing, and applying one event is `applied`.
pub proof fn lemma_applied_all_short(entities: Seq<EntityView>, event: ToolEventView)
    ensures
        applied_all(entities, Seq::empty()) == entities,
        applied_all(entities, seq![event]) == applied(entities, event),
        applied_all(entities, Seq::<ToolEventView>::empty().push(event)) == applied(
            entities,
            event,
        ),
{
    let one = seq![event];
    assert(applied_all(applied(entities, one[0]), one.drop_first()) == applied(entities, event));
}

/// Finish-drawing reaches the view port: after pointer down, pointer move
/// and pointer up on an idle move-draw tool, the view port holds one
/// entity more. The new entity is in front, has a fresh identifier of the
/// tool's kind, and is the default entity started at the first point,
/// dragged to the second and finished. The tool is idle again.
pub proof fn lemma_move_draw_installs(
    port: ViewPortView,
    down: Point2,
    over: Point2,
    up: Point2,
    device: PointingDevice,
    next: nat,
    later: bool,
)
    requires
        port.lock is Free,
        port.active_tool matches Some(ToolView::MoveDraw(tool)) && tool.state is Idle
            && tool.pending.len() == 0,
    ensures
        ({
            let tool = port.active_tool->0->MoveDraw_0;
            let fresh = default_entity(issued(next, tool.owner_id, tool.element_type));
            let pressed = port.interacted(Interaction::PointerDown(down, device), next, true);
            let moved = pressed.interacted(Interaction::PointerMove(over, device), next + 1, later);
            let released = moved.interacted(Interaction::PointerUp(up, device), next + 1, later);
            &&& released.entities == port.entities.push(
                finished(dragged(started(fresh, down), down, over)),
            )
            &&& released.entities.len() == port.entities.len() + 1
            &&& released.entities.last().id == fresh.id
            &&& released.entities.last().id.element_type == tool.element_type
            &&& released.active_tool is Some
            &&& released.active_tool->0.is_idle()
        }),
{
    let tool = port.active_tool->0->MoveDraw_0;
    let fresh = default_entity(issued(next, tool.owner_id, tool.element_type));
    let done = finished(dragged(started(fresh, down), down, over));
    lemma_applied_all_short(port.entities, ToolEventView::FinishDrawing(done));
}

/// Esc discards: whatever a move-draw or click-draw tool has in progress,
/// Esc leaves the entities of the view port as they are and the tool
/// idle.
pub proof fn lemma_esc_discards(port: ViewPortView, next: nat, can_issue: bool)
    requires
        port.lock is Free,
        port.active_tool is Some,
        port.active_tool->0 is MoveDraw || port.active_tool->0 is ClickDraw,
        port.active_tool->0.pending().len() == 0,
    ensures
        port.interacted(Interaction::KeyDown(Key::Esc), next, can_issue).entities == port.entities,
        port.interacted(Interaction::KeyDown(Key::Esc), next, can_issue).active_tool is Some,
        port.interacted(Interaction::KeyDown(Key::Esc), next, can_issue).active_tool->0.is_idle(),
{
}

} // verus!
