//! The persisted format of entities: how identifiers, styles and shape
//! models are written as JSON values, and how they are read back.
use crate::element::id::{Id, IdView};
use crate::element::ElementType;
use crate::geometry::Point2;
use crate::json::{json_views, lemma_member_at, member_views, JsonValue, JsonView};
use crate::style::{
    Color, ShapeStyle, ShapeStyleView, Stroke, StrokeView, TextStyle, TextStyleView,
};
use crate::text::{owned, same_text};
use vstd::prelude::*;

pub mod shapes;

verus! {

/// Two sequences that differ at an index are different.
pub proof fn lemma_differ_at(a: Seq<char>, b: Seq<char>, i: int)
    requires
        0 <= i < a.len(),
        i < b.len(),
        a[i] != b[i],
    ensures
        a != b,
{
}

/// The integer member `name` of an object, where it lies within `low` and
/// `high`.
pub open spec fn int_member(json: JsonView, name: Seq<char>, low: int, high: int) -> Option<int> {
    match json.get(name) {
        Some(JsonView::Number(n)) => if low <= n <= high {
            Some(n as int)
        } else {
            None
        },
        _ => None,
    }
}

/// The integer member `name` of an object, where it lies within `low` and
/// `high`.
pub fn read_int(json: &JsonValue, name: &str, low: i128, high: i128) -> (r: Option<i128>)
    ensures
        r is Some <==> int_member(json@, name@, low as int, high as int) is Some,
        r matches Some(n) ==> Some(n as int) == int_member(json@, name@, low as int, high as int),
{
    match json.get(name) {
        Some(value) => match value.as_number() {
            Some(n) => if low <= n && n <= high {
                Some(n)
            } else {
                None
            },
            None => None,
        },
        None => None,
    }
}

/// The text member `name` of an object.
pub open spec fn text_member(json: JsonView, name: Seq<char>) -> Option<Seq<char>> {
    match json.get(name) {
        Some(JsonView::Text(s)) => Some(s),
        _ => None,
    }
}

/// The text member `name` of an object.
pub fn read_text<'a>(json: &'a JsonValue, name: &str) -> (r: Option<&'a str>)
    ensures
        r is Some <==> text_member(json@, name@) is Some,
        r matches Some(s) ==> Some(s@) == text_member(json@, name@),
{
    match json.get(name) {
        Some(value) => value.as_text(),
        None => None,
    }
}

/// A point as JSON: the object of its `x` and `y`.
pub open spec fn point_json(p: Point2) -> JsonView {
    JsonView::Object(
        seq![("x"@, JsonView::Number(p.x as i128)), ("y"@, JsonView::Number(p.y as i128))],
    )
}

/// The point that a JSON value gives: an object with coordinates `x` and
/// `y`.
pub open spec fn parse_point(json: JsonView) -> Option<Point2> {
    match (
        int_member(json, "x"@, i32::MIN as int, i32::MAX as int),
        int_member(json, "y"@, i32::MIN as int, i32::MAX as int),
    ) {
        (Some(x), Some(y)) => Some(Point2 { x: x as i32, y: y as i32 }),
        _ => None,
    }
}

pub fn point_to_json(p: Point2) -> (r: JsonValue)
    ensures
        r@ == point_json(p),
{
    let members = vec![
        (owned("x"), JsonValue::Number(p.x as i128)),
        (owned("y"), JsonValue::Number(p.y as i128)),
    ];
    assert(member_views(members@) =~= point_json(p)->Object_0);
    JsonValue::Object(members)
}

pub fn point_from_json(json: &JsonValue) -> (r: Option<Point2>)
    ensures
        r == parse_point(json@),
{
    let x = read_int(json, "x", i32::MIN as i128, i32::MAX as i128);
    let y = read_int(json, "y", i32::MIN as i128, i32::MAX as i128);
    match (x, y) {
        (Some(x), Some(y)) => Some(Point2 { x: x as i32, y: y as i32 }),
        _ => None,
    }
}

/// Reading a written point gives the point.
pub proof fn lemma_point_round_trip(p: Point2)
    ensures
        parse_point(point_json(p)) == Some(p),
{
    reveal_strlit("x");
    reveal_strlit("y");
    lemma_differ_at("x"@, "y"@, 0);
    let members = point_json(p)->Object_0;
    lemma_member_at(members, 0);
    lemma_member_at(members, 1);
}

/// A colour as JSON: the object of its `r`, `g`, `b` and `a`.
pub open spec fn color_json(c: Color) -> JsonView {
    JsonView::Object(
        seq![
            ("r"@, JsonView::Number(c.r as i128)),
            ("g"@, JsonView::Number(c.g as i128)),
            ("b"@, JsonView::Number(c.b as i128)),
            ("a"@, JsonView::Number(c.a as i128)),
        ],
    )
}

/// The colour that a JSON value gives.
pub open spec fn parse_color(json: JsonView) -> Option<Color> {
    match (
        int_member(json, "r"@, 0, 255),
        int_member(json, "g"@, 0, 255),
        int_member(json, "b"@, 0, 255),
        int_member(json, "a"@, 0, 255),
    ) {
        (Some(r), Some(g), Some(b), Some(a)) => Some(
            Color { r: r as u8, g: g as u8, b: b as u8, a: a as u8 },
        ),
        _ => None,
    }
}

pub fn color_to_json(c: Color) -> (r: JsonValue)
    ensures
        r@ == color_json(c),
{
    let members = vec![
        (owned("r"), JsonValue::Number(c.r as i128)),
        (owned("g"), JsonValue::Number(c.g as i128)),
        (owned("b"), JsonValue::Number(c.b as i128)),
        (owned("a"), JsonValue::Number(c.a as i128)),
    ];
    assert(member_views(members@) =~= color_json(c)->Object_0);
    JsonValue::Object(members)
}

pub fn color_from_json(json: &JsonValue) -> (r: Option<Color>)
    ensures
        r == parse_color(json@),
{
    let r = read_int(json, "r", 0, 255);
    let g = read_int(json, "g", 0, 255);
    let b = read_int(json, "b", 0, 255);
    let a = read_int(json, "a", 0, 255);
    match (r, g, b, a) {
        (Some(r), Some(g), Some(b), Some(a)) => Some(
            Color { r: r as u8, g: g as u8, b: b as u8, a: a as u8 },
        ),
        _ => None,
    }
}

/// Reading a written colour gives the colour.
pub proof fn lemma_color_round_trip(c: Color)
    ensures
        parse_color(color_json(c)) == Some(c),
{
    reveal_strlit("r");
    reveal_strlit("g");
    reveal_strlit("b");
    reveal_strlit("a");
    lemma_differ_at("r"@, "g"@, 0);
    lemma_differ_at("r"@, "b"@, 0);
    lemma_differ_at("r"@, "a"@, 0);
    lemma_differ_at("g"@, "b"@, 0);
    lemma_differ_at("g"@, "a"@, 0);
    lemma_differ_at("b"@, "a"@, 0);
    let members = color_json(c)->Object_0;
    lemma_member_at(members, 0);
    lemma_member_at(members, 1);
    lemma_member_at(members, 2);
    lemma_member_at(members, 3);
}

/// The name of an element kind.
pub open spec fn kind_name(kind: ElementType) -> Seq<char> {
    match kind {
        ElementType::Rectangle => "Rectangle"@,
        ElementType::Polygon => "Polygon"@,
        ElementType::FreeHand => "FreeHand"@,
        ElementType::Text => "Text"@,
        ElementType::Container => "Container"@,
    }
}

/// The element kind that a name stands for.
pub open spec fn parse_kind(name: Seq<char>) -> Option<ElementType> {
    if name == "Rectangle"@ {
        Some(ElementType::Rectangle)
    } else if name == "Polygon"@ {
        Some(ElementType::Polygon)
    } else if name == "FreeHand"@ {
        Some(ElementType::FreeHand)
    } else if name == "Text"@ {
        Some(ElementType::Text)
    } else if name == "Container"@ {
        Some(ElementType::Container)
    } else {
        None
    }
}

pub fn kind_to_name(kind: ElementType) -> (r: &'static str)
    ensures
        r@ == kind_name(kind),
{
    match kind {
        ElementType::Rectangle => "Rectangle",
        ElementType::Polygon => "Polygon",
        ElementType::FreeHand => "FreeHand",
        ElementType::Text => "Text",
        ElementType::Container => "Container",
    }
}

pub fn kind_from_name(name: &str) -> (r: Option<ElementType>)
    ensures
        r == parse_kind(name@),
{
    if same_text(name, "Rectangle") {
        Some(ElementType::Rectangle)
    } else if same_text(name, "Polygon") {
        Some(ElementType::Polygon)
    } else if same_text(name, "FreeHand") {
        Some(ElementType::FreeHand)
    } else if same_text(name, "Text") {
        Some(ElementType::Text)
    } else if same_text(name, "Container") {
        Some(ElementType::Container)
    } else {
        None
    }
}

/// Reading the name of a kind gives the kind.
pub proof fn lemma_kind_round_trip(kind: ElementType)
    ensures
        parse_kind(kind_name(kind)) == Some(kind),
{
    reveal_strlit("Rectangle");
    reveal_strlit("Polygon");
    reveal_strlit("FreeHand");
    reveal_strlit("Text");
    reveal_strlit("Container");
    lemma_differ_at("Polygon"@, "Rectangle"@, 0);
    lemma_differ_at("FreeHand"@, "Rectangle"@, 0);
    lemma_differ_at("FreeHand"@, "Polygon"@, 0);
    lemma_differ_at("Text"@, "Rectangle"@, 0);
    lemma_differ_at("Text"@, "Polygon"@, 0);
    lemma_differ_at("Text"@, "FreeHand"@, 0);
    lemma_differ_at("Container"@, "Rectangle"@, 0);
    lemma_differ_at("Container"@, "Polygon"@, 0);
    lemma_differ_at("Container"@, "FreeHand"@, 0);
    lemma_differ_at("Container"@, "Text"@, 0);
}

/// An identifier as JSON: the object of its `owner_id`, `index` and
/// `element_type`.
pub open spec fn id_json(id: IdView) -> JsonView {
    JsonView::Object(
        seq![
            ("owner_id"@, JsonView::Text(id.owner_id)),
            ("index"@, JsonView::Number(id.index as i128)),
            ("element_type"@, JsonView::Text(kind_name(id.element_type))),
        ],
    )
}

/// The identifier that a JSON value gives.
pub open spec fn parse_id(json: JsonView) -> Option<IdView> {
    match (
        text_member(json, "owner_id"@),
        int_member(json, "index"@, 0, usize::MAX as int),
        text_member(json, "element_type"@),
    ) {
        (Some(owner_id), Some(index), Some(name)) => match parse_kind(name) {
            Some(element_type) => Some(IdView { owner_id, index: index as usize, element_type }),
            None => None,
        },
        _ => None,
    }
}

pub fn id_to_json(id: &Id) -> (r: JsonValue)
    ensures
        r@ == id_json(id@),
{
    let members = vec![
        (owned("owner_id"), JsonValue::text(id.owner_id())),
        (owned("index"), JsonValue::Number(id.index() as i128)),
        (owned("element_type"), JsonValue::text(kind_to_name(*id.element_type()))),
    ];
    assert(member_views(members@) =~= id_json(id@)->Object_0);
    JsonValue::Object(members)
}

pub fn id_from_json(json: &JsonValue) -> (r: Option<Id>)
    ensures
        r is Some <==> parse_id(json@) is Some,
        r matches Some(id) ==> Some(id@) == parse_id(json@),
{
    let owner_id = read_text(json, "owner_id");
    let index = read_int(json, "index", 0, usize::MAX as i128);
    let name = read_text(json, "element_type");
    match (owner_id, index, name) {
        (Some(owner_id), Some(index), Some(name)) => match kind_from_name(name) {
            Some(element_type) => Some(Id::new(owner_id, index as usize, element_type)),
            None => None,
        },
        _ => None,
    }
}

/// Reading a written identifier gives the identifier.
pub proof fn lemma_id_round_trip(id: IdView)
    ensures
        parse_id(id_json(id)) == Some(id),
{
    reveal_strlit("owner_id");
    reveal_strlit("index");
    reveal_strlit("element_type");
    lemma_differ_at("owner_id"@, "index"@, 0);
    lemma_differ_at("owner_id"@, "element_type"@, 0);
    lemma_differ_at("index"@, "element_type"@, 0);
    let members = id_json(id)->Object_0;
    lemma_member_at(members, 0);
    lemma_member_at(members, 1);
    lemma_member_at(members, 2);
    lemma_kind_round_trip(id.element_type);
}

/// Whether a JSON value is an integer within `low` and `high`.
pub open spec fn is_int_within(item: JsonView, low: int, high: int) -> bool {
    item matches JsonView::Number(n) && low <= n <= high
}

/// The integers of an array all of whose items are integers within `low`
/// and `high`.
pub open spec fn parse_ints(json: JsonView, low: int, high: int) -> Option<Seq<int>> {
    match json {
        JsonView::Array(items) => if forall|i: int|
            0 <= i < items.len() ==> is_int_within(#[trigger] items[i], low, high) {
            Some(Seq::new(items.len(), |i: int| items[i]->Number_0 as int))
        } else {
            None
        },
        _ => None,
    }
}

/// Integers as a JSON array.
pub open spec fn ints_json(values: Seq<int>) -> JsonView {
    JsonView::Array(Seq::new(values.len(), |i: int| JsonView::Number(values[i] as i128)))
}

/// Reading written integers gives them back, where each lies within the
/// bounds and is a 128-bit integer.
pub proof fn lemma_ints_round_trip(values: Seq<int>, low: int, high: int)
    requires
        forall|i: int| 0 <= i < values.len() ==> low <= #[trigger] values[i] <= high,
        i128::MIN <= low,
        high <= i128::MAX,
    ensures
        parse_ints(ints_json(values), low, high) == Some(values),
{
    let items = ints_json(values)->Array_0;
    assert forall|i: int| 0 <= i < items.len() implies is_int_within(
        #[trigger] items[i],
        low,
        high,
    ) by {}
}

/// The 128-bit integers of an array all of whose items are integers
/// within `low` and `high`.
pub fn ints_from_json(json: &JsonValue, low: i128, high: i128) -> (r: Option<Vec<i128>>)
    ensures
        r is Some <==> parse_ints(json@, low as int, high as int) is Some,
        r matches Some(values) ==> Some(values@.map_values(|v: i128| v as int)) == parse_ints(
            json@,
            low as int,
            high as int,
        ),
        r matches Some(values) ==> forall|k: int|
            0 <= k < values@.len() ==> low <= #[trigger] values@[k] <= high,
{
    match json.as_array() {
        Some(items) => {
            let ghost views = json_views(items@);
            let mut values: Vec<i128> = Vec::new();
            let mut i: usize = 0;
            while i < items.len()
                invariant
                    i <= items.len(),
                    views == json_views(items@),
                    json@.as_array() == Some(views),
                    values@.len() == i,
                    forall|k: int|
                        0 <= k < i ==> is_int_within(#[trigger] views[k], low as int, high as int),
                    forall|k: int| 0 <= k < i ==> views[k]->Number_0 == #[trigger] values@[k],
                decreases items.len() - i,
            {
                match items[i].as_number() {
                    Some(n) => {
                        if low <= n && n <= high {
                            values.push(n);
                        } else {
                            assert(!is_int_within(views[i as int], low as int, high as int));
                            return None;
                        }
                    },
                    None => {
                        return None;
                    },
                }
                i += 1;
            }
            Some(values)
        },
        None => None,
    }
}

/// A dash pattern as JSON: the array of its lengths.
pub open spec fn dashes_json(dashes: Seq<u32>) -> JsonView {
    ints_json(dashes.map_values(|d: u32| d as int))
}

/// The dash pattern that a JSON value gives.
pub open spec fn parse_dashes(json: JsonView) -> Option<Seq<u32>> {
    match parse_ints(json, 0, u32::MAX as int) {
        Some(values) => Some(values.map_values(|v: int| v as u32)),
        None => None,
    }
}

/// Reading a written dash pattern gives the pattern.
pub proof fn lemma_dashes_round_trip(dashes: Seq<u32>)
    ensures
        parse_dashes(dashes_json(dashes)) == Some(dashes),
{
    lemma_ints_round_trip(dashes.map_values(|d: u32| d as int), 0, u32::MAX as int);
}

pub fn dashes_to_json(dashes: &Vec<u32>) -> (r: JsonValue)
    ensures
        r@ == dashes_json(dashes@),
{
    let mut items: Vec<JsonValue> = Vec::new();
    let mut i: usize = 0;
    while i < dashes.len()
        invariant
            i <= dashes.len(),
            items@.len() == i,
            forall|k: int| 0 <= k < i ==> (#[trigger] items@[k])@ == JsonView::Number(
                dashes@[k] as i128,
            ),
        decreases dashes.len() - i,
    {
        items.push(JsonValue::Number(dashes[i] as i128));
        i += 1;
    }
    assert(json_views(items@) =~= dashes_json(dashes@)->Array_0);
    JsonValue::Array(items)
}

pub fn dashes_from_json(json: &JsonValue) -> (r: Option<Vec<u32>>)
    ensures
        r is Some <==> parse_dashes(json@) is Some,
        r matches Some(dashes) ==> Some(dashes@) == parse_dashes(json@),
{
    match ints_from_json(json, 0, u32::MAX as i128) {
        Some(values) => {
            let mut dashes: Vec<u32> = Vec::new();
            let mut i: usize = 0;
            while i < values.len()
                invariant
                    i <= values.len(),
                    dashes@.len() == i,
                    forall|k: int| 0 <= k < values.len() ==> 0 <= #[trigger] values@[k] <= u32::MAX,
                    forall|k: int| 0 <= k < i ==> #[trigger] dashes@[k] == values@[k] as u32,
                decreases values.len() - i,
            {
                dashes.push(values[i] as u32);
                i += 1;
            }
            Some(dashes)
        },
        None => None,
    }
}

/// A stroke as JSON: the object of its `color`, `width` and `dash_array`.
pub open spec fn stroke_json(stroke: StrokeView) -> JsonView {
    JsonView::Object(
        seq![
            ("color"@, color_json(stroke.color)),
            ("width"@, JsonView::Number(stroke.width as i128)),
            ("dash_array"@, dashes_json(stroke.dash_array)),
        ],
    )
}

/// The stroke that a JSON value gives.
pub open spec fn parse_stroke(json: JsonView) -> Option<StrokeView> {
    match (json.get("color"@), int_member(json, "width"@, 0, u32::MAX as int), json.get(
        "dash_array"@,
    )) {
        (Some(color), Some(width), Some(dashes)) => match (
            parse_color(color),
            parse_dashes(dashes),
        ) {
            (Some(color), Some(dash_array)) => Some(
                StrokeView { color, width: width as u32, dash_array },
            ),
            _ => None,
        },
        _ => None,
    }
}

pub fn stroke_to_json(stroke: &Stroke) -> (r: JsonValue)
    ensures
        r@ == stroke_json(stroke@),
{
    let members = vec![
        (owned("color"), color_to_json(stroke.color)),
        (owned("width"), JsonValue::Number(stroke.width as i128)),
        (owned("dash_array"), dashes_to_json(&stroke.dash_array)),
    ];
    assert(member_views(members@) =~= stroke_json(stroke@)->Object_0);
    JsonValue::Object(members)
}

pub fn stroke_from_json(json: &JsonValue) -> (r: Option<Stroke>)
    ensures
        r is Some <==> parse_stroke(json@) is Some,
        r matches Some(stroke) ==> Some(stroke@) == parse_stroke(json@),
{
    let color = json.get("color");
    let width = read_int(json, "width", 0, u32::MAX as i128);
    let dashes = json.get("dash_array");
    match (color, width, dashes) {
        (Some(color), Some(width), Some(dashes)) => match (
            color_from_json(color),
            dashes_from_json(dashes),
        ) {
            (Some(color), Some(dash_array)) => Some(
                Stroke { color, width: width as u32, dash_array },
            ),
            _ => None,
        },
        _ => None,
    }
}

/// Reading a written stroke gives the stroke.
pub proof fn lemma_stroke_round_trip(stroke: StrokeView)
    ensures
        parse_stroke(stroke_json(stroke)) == Some(stroke),
{
    reveal_strlit("color");
    reveal_strlit("width");
    reveal_strlit("dash_array");
    lemma_differ_at("color"@, "width"@, 0);
    lemma_differ_at("color"@, "dash_array"@, 0);
    lemma_differ_at("width"@, "dash_array"@, 0);
    let members = stroke_json(stroke)->Object_0;
    lemma_member_at(members, 0);
    lemma_member_at(members, 1);
    lemma_member_at(members, 2);
    lemma_color_round_trip(stroke.color);
    lemma_dashes_round_trip(stroke.dash_array);
}

/// A shape style as JSON: the object of its `fill_color` and `stroke`.
pub open spec fn shape_style_json(style: ShapeStyleView) -> JsonView {
    JsonView::Object(
        seq![("fill_color"@, color_json(style.fill_color)), ("stroke"@, stroke_json(style.stroke))],
    )
}

/// The shape style that a JSON value gives.
pub open spec fn parse_shape_style(json: JsonView) -> Option<ShapeStyleView> {
    match (json.get("fill_color"@), json.get("stroke"@)) {
        (Some(fill), Some(stroke)) => match (parse_color(fill), parse_stroke(stroke)) {
            (Some(fill_color), Some(stroke)) => Some(ShapeStyleView { fill_color, stroke }),
            _ => None,
        },
        _ => None,
    }
}

pub fn shape_style_to_json(style: &ShapeStyle) -> (r: JsonValue)
    ensures
        r@ == shape_style_json(style@),
{
    let members = vec![
        (owned("fill_color"), color_to_json(style.fill_color)),
        (owned("stroke"), stroke_to_json(&style.stroke)),
    ];
    assert(member_views(members@) =~= shape_style_json(style@)->Object_0);
    JsonValue::Object(members)
}

pub fn shape_style_from_json(json: &JsonValue) -> (r: Option<ShapeStyle>)
    ensures
        r is Some <==> parse_shape_style(json@) is Some,
        r matches Some(style) ==> Some(style@) == parse_shape_style(json@),
{
    match (json.get("fill_color"), json.get("stroke")) {
        (Some(fill), Some(stroke)) => match (color_from_json(fill), stroke_from_json(stroke)) {
            (Some(fill_color), Some(stroke)) => Some(ShapeStyle { fill_color, stroke }),
            _ => None,
        },
        _ => None,
    }
}

/// Reading a written shape style gives the style.
pub proof fn lemma_shape_style_round_trip(style: ShapeStyleView)
    ensures
        parse_shape_style(shape_style_json(style)) == Some(style),
{
    reveal_strlit("fill_color");
    reveal_strlit("stroke");
    lemma_differ_at("fill_color"@, "stroke"@, 0);
    let members = shape_style_json(style)->Object_0;
    lemma_member_at(members, 0);
    lemma_member_at(members, 1);
    lemma_color_round_trip(style.fill_color);
    lemma_stroke_round_trip(style.stroke);
}

/// A text style as JSON: the object of its `fill_color`, `stroke`,
/// `font_face` and `font_size`.
pub open spec fn text_style_json(style: TextStyleView) -> JsonView {
    JsonView::Object(
        seq![
            ("fill_color"@, color_json(style.fill_color)),
            ("stroke"@, stroke_json(style.stroke)),
            ("font_face"@, JsonView::Text(style.font_face)),
            ("font_size"@, JsonView::Number(style.font_size as i128)),
        ],
    )
}

/// The text style that a JSON value gives.
pub open spec fn parse_text_style(json: JsonView) -> Option<TextStyleView> {
    match (
        json.get("fill_color"@),
        json.get("stroke"@),
        text_member(json, "font_face"@),
        int_member(json, "font_size"@, 0, u32::MAX as int),
    ) {
        (Some(fill), Some(stroke), Some(font_face), Some(font_size)) => match (
            parse_color(fill),
            parse_stroke(stroke),
        ) {
            (Some(fill_color), Some(stroke)) => Some(
                TextStyleView { fill_color, stroke, font_face, font_size: font_size as u32 },
            ),
            _ => None,
        },
        _ => None,
    }
}

pub fn text_style_to_json(style: &TextStyle) -> (r: JsonValue)
    ensures
        r@ == text_style_json(style@),
{
    let members = vec![
        (owned("fill_color"), color_to_json(style.fill_color)),
        (owned("stroke"), stroke_to_json(&style.stroke)),
        (owned("font_face"), JsonValue::text(style.font_face.as_str())),
        (owned("font_size"), JsonValue::Number(style.font_size as i128)),
    ];
    assert(member_views(members@) =~= text_style_json(style@)->Object_0);
    JsonValue::Object(members)
}

pub fn text_style_from_json(json: &JsonValue) -> (r: Option<TextStyle>)
    ensures
        r is Some <==> parse_text_style(json@) is Some,
        r matches Some(style) ==> Some(style@) == parse_text_style(json@),
{
    let fill = json.get("fill_color");
    let stroke = json.get("stroke");
    let font_face = read_text(json, "font_face");
    let font_size = read_int(json, "font_size", 0, u32::MAX as i128);
    match (fill, stroke, font_face, font_size) {
        (Some(fill), Some(stroke), Some(font_face), Some(font_size)) => match (
            color_from_json(fill),
            stroke_from_json(stroke),
        ) {
            (Some(fill_color), Some(stroke)) => Some(
                TextStyle {
                    fill_color,
                    stroke,
                    font_face: owned(font_face),
                    font_size: font_size as u32,
                },
            ),
            _ => None,
        },
        _ => None,
    }
}

/// Reading a written text style gives the style.
pub proof fn lemma_text_style_round_trip(style: TextStyleView)
    ensures
        parse_text_style(text_style_json(style)) == Some(style),
{
    reveal_strlit("fill_color");
    reveal_strlit("stroke");
    reveal_strlit("font_face");
    reveal_strlit("font_size");
    lemma_differ_at("fill_color"@, "stroke"@, 0);
    lemma_differ_at("fill_color"@, "font_face"@, 1);
    lemma_differ_at("fill_color"@, "font_size"@, 1);
    lemma_differ_at("stroke"@, "font_face"@, 0);
    lemma_differ_at("stroke"@, "font_size"@, 0);
    lemma_differ_at("font_face"@, "font_size"@, 5);
    let members = text_style_json(style)->Object_0;
    lemma_member_at(members, 0);
    lemma_member_at(members, 1);
    lemma_member_at(members, 2);
    lemma_member_at(members, 3);
    lemma_color_round_trip(style.fill_color);
    lemma_stroke_round_trip(style.stroke);
}

} // verus!
