//! The whiteboard: the surface that a host embeds. It owns a view port and
//! the source of identifiers, activates tools, and takes the host's
//! pointer and key events.
use crate::element::id::IdSource;
use crate::element::ElementType;
use crate::entity::{Entity, EntityView};
use crate::geometry::Point2;
use crate::renderer::canvas_renderer::{CanvasOpView, CanvasRenderer};
use crate::renderer::svg_renderer::SVGRenderer;
use crate::renderer::svg_renderer::SvgNodeView;
use crate::renderer::{added_all, drawn_all, Renderer};
use crate::text::owned;
use crate::tool::click_draw_tool::{ClickDrawStateView, ClickDrawTool, ClickDrawView};
use crate::tool::move_draw_tool::{MoveDrawStateView, MoveDrawTool, MoveDrawView};
use crate::tool::select_tool::{SelectStateView, SelectTool, SelectView};
use crate::tool::{
    from_js_key, key_named, Interaction, PointingDevice, Tool, ToolEventView, ToolView,
};
use crate::view_port::{
    applied, entity_position, lemma_applied_all_short, LockState, ViewPort, ViewPortView,
};
use vstd::prelude::*;

verus! {

/// A whiteboard of one owner.
#[derive(Debug)]
pub struct Whiteboard {
    owner_id: String,
    view_port: ViewPort,
    ids: IdSource,
}

/// What a [`Whiteboard`] holds, as mathematical values.
pub struct WhiteboardView {
    pub owner_id: Seq<char>,
    pub port: ViewPortView,
    /// The index that the next identifier gets.
    pub next: nat,
}

impl View for Whiteboard {
    type V = WhiteboardView;

    closed spec fn view(&self) -> WhiteboardView {
        WhiteboardView {
            owner_id: self.owner_id@,
            port: self.view_port@,
            next: self.ids.next_index(),
        }
    }
}

/// The entity that a tool has in progress, if any.
pub open spec fn in_progress(tool: Option<ToolView>) -> Option<EntityView> {
    match tool {
        Some(ToolView::MoveDraw(tool)) => match tool.state {
            MoveDrawStateView::Dragging { entity, .. } => Some(entity),
            MoveDrawStateView::Idle => None,
        },
        Some(ToolView::ClickDraw(tool)) => match tool.state {
            ClickDrawStateView::Placing { entity, .. } => Some(entity),
            ClickDrawStateView::Idle => None,
        },
        _ => None,
    }
}

/// Whether the indices of the identifiers of `entities` are pairwise
/// distinct and all below `next`.
pub open spec fn issued_once(entities: Seq<EntityView>, next: nat) -> bool {
    &&& forall|i: int| 0 <= i < entities.len() ==> (#[trigger] entities[i]).id.index < next
    &&& forall|i: int, j: int|
        0 <= i < j < entities.len() ==> (#[trigger] entities[i]).id.index != (
        #[trigger] entities[j]).id.index
}

/// Whether every entity of `entities` is well formed: its identifier has
/// the kind of its model.
pub open spec fn all_wf(entities: Seq<EntityView>) -> bool {
    forall|i: int| 0 <= i < entities.len() ==> (#[trigger] entities[i]).wf()
}

/// The state that a whiteboard keeps between two calls: the lock is free,
/// the tool has published nothing that is not applied yet, every entity in
/// the view port or in progress is well formed, and every identifier was
/// issued once: no two entities share one.
pub open spec fn orderly(port: ViewPortView, next: nat) -> bool {
    &&& port.lock is Free
    &&& next <= usize::MAX
    &&& port.active_tool matches Some(tool) ==> tool.pending().len() == 0
    &&& issued_once(port.entities, next)
    &&& all_wf(port.entities)
    &&& in_progress(port.active_tool) matches Some(entity) ==> {
        &&& entity.wf()
        &&& entity.id.index < next
        &&& forall|i: int|
            0 <= i < port.entities.len() ==> (#[trigger] port.entities[i]).id.index
                != entity.id.index
    }
}

impl WhiteboardView {
    /// Whether a further identifier can be issued.
    pub open spec fn can_issue(self) -> bool {
        self.next < usize::MAX
    }

    /// The whiteboard after `interaction`: the view port takes it, and the
    /// next index moves on where the tool started an entity.
    pub open spec fn interacted(self, interaction: Interaction) -> WhiteboardView {
        WhiteboardView {
            owner_id: self.owner_id,
            port: self.port.interacted(interaction, self.next, self.can_issue()),
            next: if self.port.issues(interaction, self.can_issue()) {
                self.next + 1
            } else {
                self.next
            },
        }
    }

    /// The whiteboard with `tool` active.
    pub open spec fn with_tool(self, tool: ToolView) -> WhiteboardView {
        WhiteboardView {
            port: ViewPortView { active_tool: Some(tool), ..self.port },
            ..self
        }
    }

    /// The whiteboard after the key that the host names `name` went down:
    /// a name that is not recognised changes nothing.
    pub open spec fn keyed_down(self, name: Seq<char>) -> WhiteboardView {
        match key_named(name) {
            Some(key) => self.interacted(Interaction::KeyDown(key)),
            None => self,
        }
    }

    /// The whiteboard after the key that the host names `name` went up.
    pub open spec fn keyed_up(self, name: Seq<char>) -> WhiteboardView {
        match key_named(name) {
            Some(key) => self.interacted(Interaction::KeyUp(key)),
            None => self,
        }
    }
}

proof fn lemma_applied_keeps_issued_once(
    entities: Seq<EntityView>,
    event: ToolEventView,
    next: nat,
)
    requires
        issued_once(entities, next),
        all_wf(entities),
        event matches ToolEventView::FinishDrawing(entity) ==> {
            &&& entity.wf()
            &&& entity.id.index < next
            &&& forall|i: int|
                0 <= i < entities.len() ==> (#[trigger] entities[i]).id.index != entity.id.index
        },
    ensures
        issued_once(applied(entities, event), next),
        all_wf(applied(entities, event)),
{
    let after = applied(entities, event);
    assert forall|i: int| 0 <= i < after.len() implies (#[trigger] after[i]).wf() by {
        match event {
            ToolEventView::FinishDrawing(entity) => {
                if i < entities.len() {
                    assert(after[i] == entities[i]);
                }
            },
            ToolEventView::Translate { id, by } => {
                let at = entity_position(entities, id);
                if 0 <= at < entities.len() && entities[at].movable(by) {
                    if i == at {
                        crate::entity::lemma_moved_wf(entities[at], by);
                    } else {
                        assert(after[i] == entities[i]);
                    }
                }
            },
            ToolEventView::Remove { id } => {
                let at = entity_position(entities, id);
                if 0 <= at < entities.len() {
                    if i < at {
                        assert(after[i] == entities[i]);
                    } else {
                        assert(after[i] == entities[i + 1]);
                    }
                }
            },
        }
    }
    match event {
        ToolEventView::FinishDrawing(entity) => {
            assert forall|i: int, j: int| 0 <= i < j < after.len() implies (
            #[trigger] after[i]).id.index != (#[trigger] after[j]).id.index by {}
        },
        ToolEventView::Translate { id, by } => {
            let at = entity_position(entities, id);
            if 0 <= at < entities.len() && entities[at].movable(by) {
                assert forall|i: int| 0 <= i < after.len() implies (#[trigger] after[i]).id
                    == entities[i].id by {}
                assert forall|i: int, j: int| 0 <= i < j < after.len() implies (
                #[trigger] after[i]).id.index != (#[trigger] after[j]).id.index by {}
            }
        },
        ToolEventView::Remove { id } => {
            let at = entity_position(entities, id);
            if 0 <= at < entities.len() {
                assert forall|i: int| 0 <= i < after.len() implies (#[trigger] after[i]).id.index
                    < next by {}
                assert forall|i: int, j: int| 0 <= i < j < after.len() implies (
                #[trigger] after[i]).id.index != (#[trigger] after[j]).id.index by {}
            }
        },
    }
}

/// Every entity stays well formed and no two entities share an
/// identifier: an orderly whiteboard stays orderly under every
/// interaction.
pub proof fn lemma_interaction_keeps_order(board: WhiteboardView, interaction: Interaction)
    requires
        orderly(board.port, board.next),
    ensures
        orderly(board.interacted(interaction).port, board.interacted(interaction).next),
{
    let port = board.port;
    let next = board.next;
    match port.active_tool {
        None => {},
        Some(tool) => {
            let stepped = tool.step(interaction, port.entities, next, board.can_issue());
            if stepped.pending().len() > 0 {
                let event = stepped.pending()[0];
                assert(stepped.pending() =~= Seq::<ToolEventView>::empty().push(event));
                lemma_applied_all_short(port.entities, event);
                lemma_applied_keeps_issued_once(port.entities, event, next);
            }
        },
    }
}

impl Whiteboard {
    /// The invariant of the view port's tool.
    pub closed spec fn port_wf(&self) -> bool {
        self.view_port.wf()
    }

    /// The whiteboard is orderly.
    pub open spec fn wf(&self) -> bool {
        self.port_wf() && orderly(self@.port, self@.next)
    }

    /// A whiteboard for `owner_id`: no entity, no tool.
    pub fn new(owner_id: &str) -> (r: Whiteboard)
        ensures
            r.wf(),
            r@ == (WhiteboardView {
                owner_id: owner_id@,
                port: ViewPortView {
                    entities: Seq::empty(),
                    active_tool: None,
                    lock: LockState::Free,
                },
                next: 0,
            }),
    {
        Whiteboard { owner_id: owned(owner_id), view_port: ViewPort::new(), ids: IdSource::new() }
    }

    pub fn owner_id(&self) -> (r: &str)
        ensures
            r@ == self@.owner_id,
    {
        self.owner_id.as_str()
    }

    /// The view port.
    pub fn view_port(&self) -> (r: &ViewPort)
        ensures
            r@ == self@.port,
            self.wf() ==> r.wf(),
    {
        &self.view_port
    }

    /// The entities of the view port, in insertion order.
    pub fn entities(&self) -> (r: &Vec<Entity>)
        ensures
            crate::entity::entity_views(r@) == self@.port.entities,
    {
        self.view_port.entities()
    }

    fn activate(&mut self, tool: Tool)
        requires
            old(self).wf(),
            tool.wf(),
            tool@.pending().len() == 0,
            in_progress(Some(tool@)) is None,
        ensures
            final(self).wf(),
            final(self)@ == old(self)@.with_tool(tool@),
    {
        let _ = self.view_port.activate_tool(tool);
    }

    /// Activates an idle move-draw tool for elements of the given kind. What
    /// the tool before had in progress is discarded.
    pub fn activate_move_draw(&mut self, element_type: ElementType)
        requires
            old(self).wf(),
        ensures
            final(self).wf(),
            final(self)@ == old(self)@.with_tool(
                ToolView::MoveDraw(
                    MoveDrawView {
                        owner_id: old(self)@.owner_id,
                        element_type,
                        state: MoveDrawStateView::Idle,
                        pending: Seq::empty(),
                    },
                ),
            ),
    {
        let tool = MoveDrawTool::new(self.owner_id.as_str(), element_type);
        self.activate(Tool::MoveDraw(tool));
    }

    /// Activates an idle click-draw tool for elements of the given kind.
    /// What the tool before had in progress is discarded.
    pub fn activate_click_draw(&mut self, element_type: ElementType)
        requires
            old(self).wf(),
        ensures
            final(self).wf(),
            final(self)@ == old(self)@.with_tool(
                ToolView::ClickDraw(
                    ClickDrawView {
                        owner_id: old(self)@.owner_id,
                        element_type,
                        state: ClickDrawStateView::Idle,
                        pending: Seq::empty(),
                    },
                ),
            ),
    {
        let tool = ClickDrawTool::new(self.owner_id.as_str(), element_type);
        self.activate(Tool::ClickDraw(tool));
    }

    /// Activates an idle select tool with nothing selected.
    pub fn activate_select_tool(&mut self)
        requires
            old(self).wf(),
        ensures
            final(self).wf(),
            final(self)@ == old(self)@.with_tool(
                ToolView::Select(
                    SelectView {
                        state: SelectStateView::Idle,
                        selected: None,
                        pending: Seq::empty(),
                    },
                ),
            ),
    {
        let tool = SelectTool::new();
        self.activate(Tool::Select(tool));
    }

    /// Hands `interaction` to the view port.
    pub fn interact(&mut self, interaction: Interaction)
        requires
            old(self).wf(),
        ensures
            final(self).wf(),
            final(self)@ == old(self)@.interacted(interaction),
    {
        proof {
            lemma_interaction_keeps_order(self@, interaction);
        }
        let _ = self.view_port.interaction_event(interaction, &mut self.ids);
    }

    /// The mouse button went down at `(x, y)`.
    pub fn mouse_down(&mut self, x: i32, y: i32)
        requires
            old(self).wf(),
        ensures
            final(self).wf(),
            final(self)@ == old(self)@.interacted(
                Interaction::PointerDown(Point2 { x, y }, PointingDevice::Mouse),
            ),
    {
        self.interact(Interaction::PointerDown(Point2::new(x, y), PointingDevice::Mouse));
    }

    /// The mouse moved to `(x, y)`.
    pub fn mouse_move(&mut self, x: i32, y: i32)
        requires
            old(self).wf(),
        ensures
            final(self).wf(),
            final(self)@ == old(self)@.interacted(
                Interaction::PointerMove(Point2 { x, y }, PointingDevice::Mouse),
            ),
    {
        self.interact(Interaction::PointerMove(Point2::new(x, y), PointingDevice::Mouse));
    }

    /// The mouse button went up at `(x, y)`.
    pub fn mouse_up(&mut self, x: i32, y: i32)
        requires
            old(self).wf(),
        ensures
            final(self).wf(),
            final(self)@ == old(self)@.interacted(
                Interaction::PointerUp(Point2 { x, y }, PointingDevice::Mouse),
            ),
    {
        self.interact(Interaction::PointerUp(Point2::new(x, y), PointingDevice::Mouse));
    }

    /// The key that the host names `key` went down. A name that is not
    /// recognised is dropped.
    pub fn key_down(&mut self, key: &str)
        requires
            old(self).wf(),
        ensures
            final(self).wf(),
            final(self)@ == old(self)@.keyed_down(key@),
    {
        match from_js_key(key) {
            Some(key) => {
                self.interact(Interaction::KeyDown(key));
            },
            None => {},
        }
    }

    /// The key that the host names `key` went up. A name that is not
    /// recognised is dropped.
    pub fn key_up(&mut self, key: &str)
        requires
            old(self).wf(),
        ensures
            final(self).wf(),
            final(self)@ == old(self)@.keyed_up(key@),
    {
        match from_js_key(key) {
            Some(key) => {
                self.interact(Interaction::KeyUp(key));
            },
            None => {},
        }
    }

    /// Paints one frame through any renderer: a clear, each entity in
    /// insertion order, then the overlay of the active tool.
    pub fn render<R: Renderer>(&self, renderer: &mut R)
        requires
            self.wf(),
            old(renderer).wf(),
        ensures
            final(renderer).wf(),
            final(renderer).state() == drawn_all::<R>(
                R::cleared(old(renderer).state()),
                self@.port.frame(),
            ),
    {
        let _ = self.view_port.render(renderer);
    }

    /// Paints one frame as canvas directives: a reset, then the directives
    /// of each primitive of the frame.
    pub fn render_canvas(&self, renderer: &mut CanvasRenderer)
        requires
            self.wf(),
        ensures
            final(renderer)@ == drawn_all::<CanvasRenderer>(
                seq![CanvasOpView::Reset],
                self@.port.frame(),
            ),
    {
        self.render(renderer);
    }

    /// Brings a retained SVG tree up to the scene: one node for each
    /// entity with an SVG element, in insertion order and under the
    /// entity's identifier, then the nodes of the overlay of the active
    /// tool.
    pub fn render_svg(&self, renderer: &mut SVGRenderer)
        requires
            self.wf(),
        ensures
            final(renderer)@ == drawn_all::<SVGRenderer>(
                added_all::<SVGRenderer>(Seq::<SvgNodeView>::empty(), self@.port.entities),
                self@.port.overlay(),
            ),
    {
        let _ = self.view_port.render_retained(renderer);
    }
}

} // verus!
