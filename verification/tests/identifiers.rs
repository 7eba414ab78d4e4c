use whiteboard::element::id::{Id, IdSource};
use whiteboard::element::ElementType;
use whiteboard::text::{natural_text, signed_text};
use whiteboard::tool::{from_js_key, Key};

#[test]
fn generated_identifiers_are_pairwise_distinct() {
    let mut source = IdSource::new();
    let mut ids: Vec<Id> = Vec::new();
    for round in 0..50 {
        let kind = if round % 2 == 0 { ElementType::Rectangle } else { ElementType::Polygon };
        ids.push(Id::generate("alice", kind, &mut source));
    }
    for i in 0..ids.len() {
        for j in (i + 1)..ids.len() {
            assert_ne!(ids[i], ids[j]);
            assert_ne!(ids[i].index(), ids[j].index());
        }
    }
}

#[test]
fn generated_indices_count_up_from_zero() {
    let mut source = IdSource::new();
    let first = Id::generate("alice", ElementType::Rectangle, &mut source);
    let second = Id::generate("bob", ElementType::Text, &mut source);
    assert_eq!(first.index(), 0);
    assert_eq!(second.index(), 1);
    assert_eq!(first.owner_id(), "alice");
    assert_eq!(second.owner_id(), "bob");
    assert_eq!(*first.element_type(), ElementType::Rectangle);
    assert_eq!(*second.element_type(), ElementType::Text);
    assert!(!source.is_exhausted());
}

#[test]
fn identifier_forms() {
    let id = Id::new("alice", 1234567890, ElementType::Polygon);
    assert_eq!(id.as_html_id(), "alice-1234567890");
    assert_eq!(id.as_string(), "alice_1234567890");
    let zero = Id::new("", 0, ElementType::Container);
    assert_eq!(zero.as_html_id(), "-0");
    assert_eq!(zero.as_string(), "_0");
}

#[test]
fn identifiers_collide_only_when_all_fields_are_equal() {
    let id = Id::new("alice", 3, ElementType::Rectangle);
    assert_eq!(id, Id::new("alice", 3, ElementType::Rectangle));
    assert_ne!(id, Id::new("alicia", 3, ElementType::Rectangle));
    assert_ne!(id, Id::new("alice", 4, ElementType::Rectangle));
    assert_ne!(id, Id::new("alice", 3, ElementType::Polygon));
    assert!(id.same(&id.duplicate()));
    assert_eq!(id.clone(), id);
}

#[test]
fn decimal_numerals() {
    assert_eq!(natural_text(0), "0");
    assert_eq!(natural_text(7), "7");
    assert_eq!(natural_text(10), "10");
    assert_eq!(natural_text(u64::MAX), "18446744073709551615");
    assert_eq!(signed_text(0), "0");
    assert_eq!(signed_text(-1), "-1");
    assert_eq!(signed_text(305), "305");
    assert_eq!(signed_text(i64::MIN), "-9223372036854775808");
    assert_eq!(signed_text(i64::MAX), "9223372036854775807");
}

#[test]
fn host_key_names() {
    assert_eq!(from_js_key("Escape"), Some(Key::Esc));
    assert_eq!(from_js_key("Enter"), Some(Key::Enter));
    assert_eq!(from_js_key("Backspace"), Some(Key::Backspace));
    assert_eq!(from_js_key("Delete"), Some(Key::Delete));
    assert_eq!(from_js_key("ArrowLeft"), Some(Key::ArrowLeft));
    assert_eq!(from_js_key("ArrowUp"), Some(Key::ArrowUp));
    assert_eq!(from_js_key("ArrowRight"), Some(Key::ArrowRight));
    assert_eq!(from_js_key("ArrowDown"), Some(Key::ArrowDown));
    assert_eq!(from_js_key("escape"), None);
    assert_eq!(from_js_key("Esc"), None);
    assert_eq!(from_js_key("a"), None);
    assert_eq!(from_js_key(""), None);
}
