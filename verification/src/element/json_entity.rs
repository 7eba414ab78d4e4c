//! Entities in the persisted format: an object of `id` and `model`.
use crate::element::id::{Id, IdView};
use crate::element::ElementType;
use crate::entity::{Entity, EntityView, FeatureSet, ModelView, ShapeModel};
use crate::json::{
    json_views, lemma_member_at, member_position, member_views, JsonValue, JsonView,
};
use crate::persist::shapes::{
    free_hand_from_json, free_hand_json, free_hand_to_json, lemma_free_hand_round_trip,
    lemma_polygon_round_trip, lemma_rectangle_round_trip, lemma_text_round_trip,
    parse_free_hand, parse_polygon, parse_rectangle, parse_text, polygon_from_json, polygon_json,
    polygon_to_json, rectangle_from_json, rectangle_json, rectangle_to_json, text_from_json,
    text_json, text_to_json,
};
use crate::persist::{
    id_from_json, id_json, id_to_json, lemma_differ_at, lemma_id_round_trip, parse_id,
};
use crate::search::lemma_first_index;
use crate::text::owned;
use vstd::prelude::*;

verus! {

/// An entity read from JSON as far as its identifier; the model is still
/// the JSON value, to be read by the identifier's kind.
#[derive(Debug, PartialEq, Eq)]
pub struct JsonEntity {
    pub id: Id,
    pub model: JsonValue,
}

/// What a [`JsonEntity`] holds, as mathematical values.
pub struct JsonEntityView {
    pub id: IdView,
    pub model: JsonView,
}

impl View for JsonEntity {
    type V = JsonEntityView;

    open spec fn view(&self) -> JsonEntityView {
        JsonEntityView { id: self.id@, model: self.model@ }
    }
}

/// The children of a container as JSON: the array of the entities.
pub open spec fn children_json(children: Seq<EntityView>) -> JsonView
    decreases children,
{
    JsonView::Array(
        Seq::new(
            children.len(),
            |i: int|
                if 0 <= i < children.len() {
                    entity_json(children[i])
                } else {
                    JsonView::Null
                },
        ),
    )
}

/// A model as JSON. A container is the object of its `children`.
pub open spec fn model_json(model: ModelView) -> JsonView
    decreases model,
{
    match model {
        ModelView::Rectangle { rectangle, style } => rectangle_json(rectangle, style),
        ModelView::Polygon { vertices, style } => polygon_json(vertices, style),
        ModelView::FreeHand { commands, style } => free_hand_json(commands, style),
        ModelView::Text { text, text_style } => text_json(text, text_style),
        ModelView::Container { children } => JsonView::Object(
            seq![("children"@, children_json(children))],
        ),
    }
}

/// An entity as JSON: the object of its `id` and its `model`.
pub open spec fn entity_json(entity: EntityView) -> JsonView
    decreases entity,
{
    JsonView::Object(seq![("id"@, id_json(entity.id)), ("model"@, model_json(entity.model))])
}

/// The entities that the items of an array give, where each gives one.
pub open spec fn parse_children(items: Seq<JsonView>) -> Option<Seq<EntityView>>
    decreases items,
{
    if forall|i: int| 0 <= i < items.len() ==> parse_entity(#[trigger] items[i]) is Some {
        Some(
            Seq::new(
                items.len(),
                |i: int|
                    if 0 <= i < items.len() {
                        parse_entity(items[i])->0
                    } else {
                        arbitrary()
                    },
            ),
        )
    } else {
        None
    }
}

/// The model of the given kind that a JSON value gives. The value must
/// have the structure of that kind; a container's `children` must each
/// give an entity.
pub open spec fn parse_model(kind: ElementType, json: JsonView) -> Option<ModelView>
    decreases json,
{
    match kind {
        ElementType::Rectangle => parse_rectangle(json),
        ElementType::Polygon => parse_polygon(json),
        ElementType::FreeHand => parse_free_hand(json),
        ElementType::Text => parse_text(json),
        ElementType::Container => match json {
            JsonView::Object(fields) => {
                let at = member_position(fields, "children"@);
                if 0 <= at < fields.len() {
                    match fields[at].1 {
                        JsonView::Array(items) => match parse_children(items) {
                            Some(children) => Some(ModelView::Container { children }),
                            None => None,
                        },
                        _ => None,
                    }
                } else {
                    None
                }
            },
            _ => None,
        },
    }
}

/// The entity that a JSON value gives: its `id`, its `model` read by the
/// identifier's kind, and the standard features of that kind.
pub open spec fn parse_entity(json: JsonView) -> Option<EntityView>
    decreases json,
{
    match json {
        JsonView::Object(members) => {
            let id_at = member_position(members, "id"@);
            let model_at = member_position(members, "model"@);
            if 0 <= id_at < members.len() && 0 <= model_at < members.len() {
                match parse_id(members[id_at].1) {
                    Some(id) => built(id, parse_model(id.element_type, members[model_at].1)),
                    None => None,
                }
            } else {
                None
            }
        },
        _ => None,
    }
}

/// The entity with the identifier `id`, the model `model` and the standard
/// features of the identifier's kind, where there is a model.
pub open spec fn built(id: IdView, model: Option<ModelView>) -> Option<EntityView> {
    match model {
        Some(model) => Some(
            EntityView { id, model, features: FeatureSet::spec_standard(id.element_type) },
        ),
        None => None,
    }
}

/// Whether the entity, and each entity below it, is well formed and has
/// the standard features of its kind.
pub open spec fn persistable(entity: EntityView) -> bool
    decreases entity,
{
    &&& entity.id.element_type == entity.model.kind()
    &&& entity.features == FeatureSet::spec_standard(entity.model.kind())
    &&& match entity.model {
        ModelView::Container { children } => forall|i: int|
            0 <= i < children.len() ==> persistable(#[trigger] children[i]),
        _ => true,
    }
}

/// What `parse_model` gives has the kind that was asked for, and every
/// entity read is persistable.
pub proof fn lemma_parsed_is_persistable(json: JsonView)
    ensures
        parse_entity(json) matches Some(entity) ==> persistable(entity) && entity.wf(),
    decreases json,
{
    match parse_entity(json) {
        Some(entity) => {
            let members = json->Object_0;
            let model_at = member_position(members, "model"@);
            let model_json = members[model_at].1;
            match entity.model {
                ModelView::Container { children } => {
                    let fields = model_json->Object_0;
                    let at = member_position(fields, "children"@);
                    let items = fields[at].1->Array_0;
                    assert forall|i: int| 0 <= i < children.len() implies persistable(
                        #[trigger] children[i],
                    ) && children[i].wf() by {
                        lemma_parsed_is_persistable(items[i]);
                    }
                },
                _ => {},
            }
        },
        None => {},
    }
}

/// Round trip: writing a persistable entity and reading the result gives
/// the entity, with its identifier, its model and its features.
pub proof fn lemma_entity_round_trip(entity: EntityView)
    requires
        persistable(entity),
    ensures
        parse_entity(entity_json(entity)) == Some(entity),
    decreases entity,
{
    reveal_strlit("id");
    reveal_strlit("model");
    lemma_differ_at("id"@, "model"@, 0);
    let members = entity_json(entity)->Object_0;
    lemma_member_at(members, 0);
    lemma_member_at(members, 1);
    lemma_first_index(members, crate::json::named("id"@));
    lemma_first_index(members, crate::json::named("model"@));
    lemma_id_round_trip(entity.id);
    lemma_model_round_trip(entity);
}

proof fn lemma_model_round_trip(entity: EntityView)
    requires
        persistable(entity),
    ensures
        parse_model(entity.model.kind(), model_json(entity.model)) == Some(entity.model),
    decreases entity, 0nat,
{
    match entity.model {
        ModelView::Rectangle { rectangle, style } => {
            lemma_rectangle_round_trip(rectangle, style);
        },
        ModelView::Polygon { vertices, style } => {
            lemma_polygon_round_trip(vertices, style);
        },
        ModelView::FreeHand { commands, style } => {
            lemma_free_hand_round_trip(commands, style);
        },
        ModelView::Text { text, text_style } => {
            lemma_text_round_trip(text, text_style);
        },
        ModelView::Container { children } => {
            let fields = model_json(entity.model)->Object_0;
            lemma_member_at(fields, 0);
            lemma_first_index(fields, crate::json::named("children"@));
            let items = children_json(children)->Array_0;
            assert forall|i: int| 0 <= i < items.len() implies parse_entity(#[trigger] items[i])
                == Some(children[i]) by {
                lemma_entity_round_trip(children[i]);
            }
            assert(parse_children(items)->0 =~= children);
        },
    }
}

/// A container's children as a JSON array.
fn children_to_json(children: &Vec<Entity>) -> (r: JsonValue)
    ensures
        r@ == children_json(crate::entity::entity_views(children@)),
    decreases children,
{
    let ghost views = crate::entity::entity_views(children@);
    let mut items: Vec<JsonValue> = Vec::new();
    let mut i: usize = 0;
    while i < children.len()
        invariant
            i <= children.len(),
            views == crate::entity::entity_views(children@),
            items@.len() == i,
            forall|k: int| 0 <= k < i ==> (#[trigger] items@[k])@ == entity_json(views[k]),
        decreases children.len() - i,
    {
        proof {
            vstd::std_specs::vec::axiom_vec_index_decreases(*children, i as int);
        }
        items.push(entity_to_json(&children[i]));
        i += 1;
    }
    assert(json_views(items@) =~= children_json(views)->Array_0);
    JsonValue::Array(items)
}

/// A model as JSON.
pub fn model_to_json(model: &ShapeModel) -> (r: JsonValue)
    ensures
        r@ == model_json(model@),
    decreases model,
{
    match model {
        ShapeModel::Rectangle { rectangle, style } => rectangle_to_json(rectangle, style),
        ShapeModel::Polygon { polygon, style } => polygon_to_json(polygon, style),
        ShapeModel::FreeHand { path, style } => free_hand_to_json(path, style),
        ShapeModel::Text { text, text_style } => text_to_json(text, text_style),
        ShapeModel::Container { children } => {
            let members = vec![(owned("children"), children_to_json(children))];
            assert(member_views(members@) =~= model_json(model@)->Object_0);
            JsonValue::Object(members)
        },
    }
}

/// An entity as JSON: the object of its `id` and its `model`.
pub fn entity_to_json(entity: &Entity) -> (r: JsonValue)
    ensures
        r@ == entity_json(entity@),
    decreases entity,
{
    let members = vec![
        (owned("id"), id_to_json(entity.id())),
        (owned("model"), model_to_json(entity.model())),
    ];
    assert(member_views(members@) =~= entity_json(entity@)->Object_0);
    JsonValue::Object(members)
}

fn children_from_json(items: &Vec<JsonValue>) -> (r: Option<Vec<Entity>>)
    ensures
        r is Some <==> parse_children(json_views(items@)) is Some,
        r matches Some(children) ==> Some(crate::entity::entity_views(children@))
            == parse_children(json_views(items@)),
    decreases items,
{
    let ghost views = json_views(items@);
    let mut children: Vec<Entity> = Vec::new();
    let mut i: usize = 0;
    while i < items.len()
        invariant
            i <= items.len(),
            views == json_views(items@),
            children@.len() == i,
            forall|k: int| 0 <= k < i ==> parse_entity(#[trigger] views[k]) == Some(
                children@[k]@,
            ),
        decreases items.len() - i,
    {
        proof {
            vstd::std_specs::vec::axiom_vec_index_decreases(*items, i as int);
        }
        match entity_from_json(&items[i]) {
            Some(child) => {
                children.push(child);
            },
            None => {
                assert(parse_entity(views[i as int]) is None);
                return None;
            },
        }
        i += 1;
    }
    Some(children)
}

/// The model of the given kind that a JSON value gives.
pub fn model_from_json(kind: ElementType, json: &JsonValue) -> (r: Option<ShapeModel>)
    ensures
        r is Some <==> parse_model(kind, json@) is Some,
        r matches Some(model) ==> Some(model@) == parse_model(kind, json@),
        r matches Some(model) ==> model@.kind() == kind,
    decreases json,
{
    match kind {
        ElementType::Rectangle => rectangle_from_json(json),
        ElementType::Polygon => polygon_from_json(json),
        ElementType::FreeHand => free_hand_from_json(json),
        ElementType::Text => text_from_json(json),
        ElementType::Container => match json.get("children") {
            Some(value) => match value.as_array() {
                Some(items) => match children_from_json(items) {
                    Some(children) => Some(ShapeModel::Container { children }),
                    None => None,
                },
                None => None,
            },
            None => None,
        },
    }
}

/// The entity that a JSON value gives.
pub fn entity_from_json(json: &JsonValue) -> (r: Option<Entity>)
    ensures
        r is Some <==> parse_entity(json@) is Some,
        r matches Some(entity) ==> Some(entity@) == parse_entity(json@),
    decreases json,
{
    match (json.get("id"), json.get("model")) {
        (Some(id), Some(model)) => match id_from_json(id) {
            Some(id) => {
                let kind = *id.element_type();
                match model_from_json(kind, model) {
                    Some(model) => Entity::new(id, model, FeatureSet::standard(kind)),
                    None => None,
                }
            },
            None => None,
        },
        _ => None,
    }
}

impl JsonEntity {
    /// Splits a JSON value into the identifier and the model's JSON. `None`
    /// where the value is no object with an `id` that gives an identifier
    /// and a `model`.
    pub open spec fn parse(json: JsonView) -> Option<JsonEntityView> {
        match (json.get("id"@), json.get("model"@)) {
            (Some(id), Some(model)) => match parse_id(id) {
                Some(id) => Some(JsonEntityView { id, model }),
                None => None,
            },
            _ => None,
        }
    }

    /// Splits a JSON value into the identifier and the model's JSON.
    pub fn from_value(json: JsonValue) -> (r: Option<JsonEntity>)
        ensures
            r is Some <==> Self::parse(json@) is Some,
            r matches Some(entity) ==> Some(entity@) == Self::parse(json@),
    {
        let id = match json.get("id") {
            Some(id) => id_from_json(id),
            None => None,
        };
        match (id, json.take("model")) {
            (Some(id), Some(model)) => Some(JsonEntity { id, model }),
            _ => None,
        }
    }
}

} // verus!
