//! Element kinds, identifiers and the builder of entities.
use crate::element::id::{issued, Id, IdSource, IdView};
use crate::element::json_entity::{
    built, entity_json, lemma_entity_round_trip, model_from_json, parse_entity, parse_model,
    persistable, JsonEntity,
};
use crate::entity::{Entity, EntityView, FeatureSet, ModelView, ShapeModel};
use crate::geometry::{Point2, Polygon2D, Rectangle, Text, TextView};
use crate::json::{JsonValue, JsonView};
use crate::path::Path;
use crate::style::{default_shape_style, default_text_style, ShapeStyle, TextStyle};
use vstd::prelude::*;

pub mod id;
pub mod json_entity;

verus! {

/// The closed set of kinds of drawable element.
#[derive(Copy, Clone, Debug, PartialEq, Eq, Hash, Structural)]
pub enum ElementType {
    Rectangle,
    Polygon,
    FreeHand,
    Text,
    Container,
}

/// Why a persisted entity could not be read.
#[derive(Copy, Clone, Debug, PartialEq, Eq, Hash, Structural)]
pub enum ParseError {
    /// The text is not JSON.
    Syntax,
    /// The JSON value does not have the structure of the declared kind.
    Schema,
}

/// The model that a fresh element of the given kind has: a rectangle of no
/// extent at the origin, a polygon without vertices, a path without
/// commands, an empty text at the origin, a container without children;
/// each in the default style.
pub open spec fn default_model(kind: ElementType) -> ModelView {
    match kind {
        ElementType::Rectangle => ModelView::Rectangle {
            rectangle: Rectangle {
                top_left: Point2 { x: 0, y: 0 },
                opposite: Point2 { x: 0, y: 0 },
            },
            style: default_shape_style(),
        },
        ElementType::Polygon => ModelView::Polygon {
            vertices: Seq::empty(),
            style: default_shape_style(),
        },
        ElementType::FreeHand => ModelView::FreeHand {
            commands: Seq::empty(),
            style: default_shape_style(),
        },
        ElementType::Text => ModelView::Text {
            text: TextView { content: Seq::empty(), anchor: Point2 { x: 0, y: 0 } },
            text_style: default_text_style(),
        },
        ElementType::Container => ModelView::Container { children: Seq::empty() },
    }
}

/// The fresh entity with the identifier `id`: the default model of the
/// identifier's kind and the standard features of that kind.
pub open spec fn default_entity(id: IdView) -> EntityView {
    EntityView {
        id,
        model: default_model(id.element_type),
        features: FeatureSet::spec_standard(id.element_type),
    }
}

/// What to build an entity from.
#[derive(Debug)]
pub enum Build {
    /// A persisted entity.
    FromJson(JsonEntity),
    /// Nothing: a fresh entity of the given kind for the given owner.
    Default { owner_id: String, element_type: ElementType },
}

/// What a [`Build`] holds, as mathematical values.
pub enum BuildView {
    FromJson(crate::element::json_entity::JsonEntityView),
    Default { owner_id: Seq<char>, element_type: ElementType },
}

impl View for Build {
    type V = BuildView;

    open spec fn view(&self) -> BuildView {
        match *self {
            Build::FromJson(json_entity) => BuildView::FromJson(json_entity@),
            Build::Default { owner_id, element_type } => BuildView::Default {
                owner_id: owner_id@,
                element_type,
            },
        }
    }
}

/// The entity that a build gives, where the next index of the identifier
/// source is `next`: for a persisted entity the model read by the
/// identifier's kind, or `None` where the JSON does not have the structure
/// of that kind; for a fresh one the default entity under the identifier
/// issued.
pub open spec fn build_result(build: BuildView, next: nat) -> Option<EntityView> {
    match build {
        BuildView::FromJson(json_entity) => built(
            json_entity.id,
            parse_model(json_entity.id.element_type, json_entity.model),
        ),
        BuildView::Default { owner_id, element_type } => Some(
            default_entity(issued(next, owner_id, element_type)),
        ),
    }
}

fn fresh_model(kind: ElementType) -> (r: ShapeModel)
    ensures
        r@ == default_model(kind),
{
    match kind {
        ElementType::Rectangle => ShapeModel::Rectangle {
            rectangle: Rectangle::zero_sized(Point2::origin()),
            style: ShapeStyle::default(),
        },
        ElementType::Polygon => ShapeModel::Polygon {
            polygon: Polygon2D::empty(),
            style: ShapeStyle::default(),
        },
        ElementType::FreeHand => ShapeModel::FreeHand {
            path: Path::empty(),
            style: ShapeStyle::default(),
        },
        ElementType::Text => {
            proof {
                reveal_strlit("");
            }
            let text = Text::new("", Point2::origin());
            assert(text@.content =~= Seq::<char>::empty());
            ShapeModel::Text { text, text_style: TextStyle::default() }
        },
        ElementType::Container => {
            let children: Vec<Entity> = Vec::new();
            let model = ShapeModel::Container { children };
            assert(model@->Container_children =~= Seq::<EntityView>::empty());
            model
        },
    }
}

impl Build {
    /// The fresh entity of the given kind for `owner_id`: the default model,
    /// the standard features, and a fresh identifier from `ids`.
    pub fn default(owner_id: &str, element_type: ElementType, ids: &mut IdSource) -> (r: Entity)
        requires
            !old(ids).exhausted(),
        ensures
            r@ == default_entity(issued(old(ids).next_index(), owner_id@, element_type)),
            r@.wf(),
            final(ids).next_index() == old(ids).next_index() + 1,
    {
        let id = Id::generate(owner_id, element_type, ids);
        let model = fresh_model(element_type);
        let entity = Entity::new(id, model, FeatureSet::standard(element_type));
        entity.unwrap()
    }

    /// The entity that a persisted entity gives: its model is read by the
    /// identifier's kind, and the standard features of that kind are
    /// attached. Fails with `ParseError::Schema` where the model's JSON does
    /// not have the structure of that kind: this covers a kind that does not
    /// match the model and a container with a child that cannot be read.
    pub fn from_json(json_entity: JsonEntity) -> (r: Result<Entity, ParseError>)
        ensures
            r is Ok <==> build_result(BuildView::FromJson(json_entity@), 0) is Some,
            r matches Ok(entity) ==> Some(entity@) == build_result(
                BuildView::FromJson(json_entity@),
                0,
            ) && entity@.wf(),
            r matches Err(error) ==> error == ParseError::Schema,
    {
        let kind = *json_entity.id.element_type();
        match model_from_json(kind, &json_entity.model) {
            Some(model) => {
                proof {
                    lemma_model_children_wf(kind, json_entity.model@);
                }
                let entity = Entity::new(json_entity.id, model, FeatureSet::standard(kind));
                Ok(entity.unwrap())
            },
            None => Err(ParseError::Schema),
        }
    }

    /// Builds the entity. A fresh entity takes its identifier from `ids`
    /// and cannot fail; a persisted one leaves `ids` alone.
    pub fn build(self, ids: &mut IdSource) -> (r: Result<Entity, ParseError>)
        requires
            self is Default ==> !old(ids).exhausted(),
        ensures
            r is Ok <==> build_result(self@, old(ids).next_index()) is Some,
            r matches Ok(entity) ==> Some(entity@) == build_result(self@, old(ids).next_index())
                && entity@.wf(),
            r matches Err(error) ==> error == ParseError::Schema,
            final(ids).next_index() == (if self is Default {
                old(ids).next_index() + 1
            } else {
                old(ids).next_index()
            }),
    {
        match self {
            Build::FromJson(json_entity) => Self::from_json(json_entity),
            Build::Default { owner_id, element_type } => Ok(
                Self::default(owner_id.as_str(), element_type, ids),
            ),
        }
    }
}

/// The children of a model that was read are well formed.
pub proof fn lemma_model_children_wf(kind: ElementType, json: JsonView)
    ensures
        parse_model(kind, json) matches Some(model) ==> model.children_wf() && model.kind()
            == kind,
{
    match parse_model(kind, json) {
        Some(ModelView::Container { children }) => {
            let fields = json->Object_0;
            let at = crate::json::member_position(fields, "children"@);
            let items = fields[at].1->Array_0;
            assert forall|i: int| 0 <= i < children.len() implies (#[trigger] children[i]).wf() by {
                crate::element::json_entity::lemma_parsed_is_persistable(items[i]);
            }
        },
        _ => {},
    }
}

/// Reads an entity from its persisted form, an object of `id` and `model`.
/// Fails with `ParseError::Schema` where the value is no such object, the
/// `id` gives no identifier, or the `model` does not have the structure of
/// the identifier's kind.
pub fn build_from_json(value: JsonValue) -> (r: Result<Entity, ParseError>)
    ensures
        r is Ok <==> parse_entity(value@) is Some,
        r matches Ok(entity) ==> Some(entity@) == parse_entity(value@) && entity@.wf(),
        r matches Err(error) ==> error == ParseError::Schema,
{
    proof {
        lemma_parse_entity_splits(value@);
    }
    match JsonEntity::from_value(value) {
        Some(json_entity) => Build::from_json(json_entity),
        None => Err(ParseError::Schema),
    }
}

/// Reading an entity is splitting the value, then building from the
/// parts.
pub proof fn lemma_parse_entity_splits(json: JsonView)
    ensures
        parse_entity(json) == (match JsonEntity::parse(json) {
            Some(parts) => build_result(BuildView::FromJson(parts), 0),
            None => None,
        }),
{
    match json {
        JsonView::Object(members) => {
            crate::search::lemma_first_index(members, crate::json::named("id"@));
            crate::search::lemma_first_index(members, crate::json::named("model"@));
        },
        _ => {},
    }
}

/// A fresh entity is persistable.
pub proof fn lemma_default_is_persistable(id: IdView)
    ensures
        persistable(default_entity(id)),
        default_entity(id).wf(),
{
}

/// Round trip of fresh entities: writing the entity that `Build::default`
/// gives and reading the result gives an entity with the same identifier,
/// the same model and the same standard features.
pub proof fn lemma_default_round_trip(id: IdView)
    ensures
        parse_entity(entity_json(default_entity(id))) == Some(default_entity(id)),
{
    lemma_default_is_persistable(id);
    lemma_entity_round_trip(default_entity(id));
}

} // verus!
