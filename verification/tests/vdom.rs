use vdom_nodes::Arena;
use vdom_nodes::Attribute;
use vdom_nodes::ErasedProps;
use vdom_nodes::Listener;
use vdom_nodes::ListenerHandle;
use vdom_nodes::NodeKey;
use vdom_nodes::VComponent;
use vdom_nodes::VFragment;
use vdom_nodes::VNode;

#[test]
fn key_sentinel_and_actual_key() {
    let none = NodeKey::none();
    assert!(none.is_none());
    assert!(!none.is_some());
    let k = NodeKey::new("list-1".to_string());
    assert!(k.is_some());
    assert!(!k.is_none());
    assert_eq!(k.0.as_deref(), Some("list-1"));
    let d = NodeKey::default();
    assert!(d.is_none());
    assert_eq!(d.0, None);
}

#[test]
fn key_exactly_one_of_none_some() {
    let keys = vec![
        NodeKey::none(),
        NodeKey::new(String::new()),
        NodeKey::new("a".to_string()),
        NodeKey::default(),
    ];
    for k in keys {
        assert_ne!(k.is_none(), k.is_some());
    }
}

#[test]
fn key_clone_preserves_content() {
    let k = NodeKey::new("x".to_string());
    let c = k.clone();
    assert_eq!(c.0, k.0);
    let n = NodeKey::none();
    assert!(n.clone().is_none());
}

#[test]
fn attribute_accessors() {
    let a = Attribute { name: "id".to_string(), value: "my-thing".to_string() };
    assert_eq!(a.name().as_str(), "id");
    assert_eq!(a.value().as_str(), "my-thing");
    let b = a.clone();
    assert_eq!(b.name().as_str(), "id");
    assert_eq!(b.value().as_str(), "my-thing");
}

#[test]
fn volatile_attribute_names() {
    for name in ["value", "checked", "selected"] {
        let a = Attribute { name: name.to_string(), value: "x".to_string() };
        assert!(a.is_volatile(), "{} must be volatile", name);
    }
    for name in ["id", "href", "class", "Value", ""] {
        let a = Attribute { name: name.to_string(), value: "x".to_string() };
        assert!(!a.is_volatile(), "{} must not be volatile", name);
    }
}

#[test]
fn equal_volatile_attribute_still_reapplied() {
    // First render: <div value="a">, no key, no children.
    let mut old_pass = Arena::new();
    let old_div = VNode::element(
        &mut old_pass,
        NodeKey::none(),
        "div".to_string(),
        Vec::new(),
        vec![Attribute { name: "value".to_string(), value: "a".to_string() }],
        Vec::new(),
        None,
    );
    // Re-render with an identical attribute.
    let mut new_pass = Arena::new();
    let new_div = VNode::element(
        &mut new_pass,
        NodeKey::none(),
        "div".to_string(),
        Vec::new(),
        vec![Attribute { name: "value".to_string(), value: "a".to_string() }],
        Vec::new(),
        None,
    );
    let old_attr = match old_div {
        VNode::Element(i) => &old_pass.elements[i].attributes[0],
        _ => panic!("expected an element"),
    };
    let new_attr = match new_div {
        VNode::Element(i) => &new_pass.elements[i].attributes[0],
        _ => panic!("expected an element"),
    };
    // Old and new virtual values compare equal...
    assert_eq!(old_attr.value().as_str(), new_attr.value().as_str());
    // ...yet the attribute is volatile, so the reconciler must still
    // re-apply it to the physical surface.
    assert!(new_attr.is_volatile());
}

#[test]
fn erased_props_value_equality() {
    assert!(ErasedProps::new(Vec::new()).eq_value(&ErasedProps::new(Vec::new())));
    assert!(ErasedProps::new(vec![1, 2, 3]).eq_value(&ErasedProps::new(vec![1, 2, 3])));
    assert!(!ErasedProps::new(vec![1, 2, 3]).eq_value(&ErasedProps::new(vec![1, 2, 4])));
    assert!(!ErasedProps::new(vec![1, 2]).eq_value(&ErasedProps::new(vec![1, 2, 3])));
    assert!(!ErasedProps::new(vec![1]).eq_value(&ErasedProps::new(Vec::new())));
}

#[test]
fn comparator_same_render_fn() {
    // Two instances of component A, both with props {count: 1}.
    let a1 = VComponent::new(1, ErasedProps::new(vec![1]), true, None, Vec::new());
    let a2 = VComponent::new(1, ErasedProps::new(vec![1]), true, None, Vec::new());
    assert_eq!(a1.compare(&a2), Some(true));
    // Second instance's props changed to {count: 2}.
    let a3 = VComponent::new(1, ErasedProps::new(vec![2]), true, None, Vec::new());
    assert_eq!(a1.compare(&a3), Some(false));
}

#[test]
fn comparator_different_render_fn() {
    let a = VComponent::new(1, ErasedProps::new(vec![1]), true, None, Vec::new());
    let b = VComponent::new(2, ErasedProps::new(vec![1]), true, None, Vec::new());
    assert_eq!(a.compare(&b), Some(false));
}

#[test]
fn comparator_absent_without_memoization() {
    let a = VComponent::new(1, ErasedProps::new(vec![1]), false, None, Vec::new());
    let b = VComponent::new(1, ErasedProps::new(vec![1]), true, None, Vec::new());
    assert_eq!(a.compare(&b), None);
}

#[test]
fn fragment_keyed_with_three_text_children() {
    let mut arena = Arena::new();
    let a = VNode::text(&mut arena, "a".to_string());
    let b = VNode::text(&mut arena, "b".to_string());
    let c = VNode::text(&mut arena, "c".to_string());
    let frag = VFragment::new(Some("list-1".to_string()), vec![a, b, c]);
    assert_eq!(frag.key.0.as_deref(), Some("list-1"));
    let node = arena.alloc_fragment(frag);
    // A fragment holds no physical-node handle of its own.
    assert!(!node.has_dom_handle());
    assert_eq!(node.key(&arena).0.as_deref(), Some("list-1"));
    let stored = match node {
        VNode::Fragment(i) => &arena.fragments[i],
        _ => panic!("expected a fragment"),
    };
    assert_eq!(stored.children.len(), 3);
    let texts: Vec<&str> = stored
        .children
        .iter()
        .map(|ch| match ch {
            VNode::Text(j) => arena.texts[*j].text.as_str(),
            _ => panic!("expected a text child"),
        })
        .collect();
    assert_eq!(texts, vec!["a", "b", "c"]);
}

#[test]
fn fragment_without_key_gets_sentinel() {
    let f = VFragment::new(None, Vec::new());
    assert!(f.key.is_none());
    assert!(f.children.is_empty());
}

#[test]
fn clone_shares_handle_cell() {
    let mut arena = Arena::new();
    let n = VNode::element(
        &mut arena,
        NodeKey::none(),
        "div".to_string(),
        Vec::new(),
        Vec::new(),
        Vec::new(),
        None,
    );
    let m = n.clone();
    // The cell starts empty...
    assert_eq!(arena.read_dom_handle(n), None);
    // ...and a write through one handle is observable through the other.
    arena.write_dom_handle(n, 42);
    assert_eq!(arena.read_dom_handle(m), Some(42));

    let t = VNode::text(&mut arena, "hi".to_string());
    let t2 = t.clone();
    arena.write_dom_handle(t2, 7);
    assert_eq!(arena.read_dom_handle(t), Some(7));
}

#[test]
fn element_parts_stored_in_order() {
    let mut arena = Arena::new();
    let child = VNode::text(&mut arena, "hello".to_string());
    let listeners = vec![Listener {
        event: "click".to_string(),
        scope: 3,
        id: 0,
        callback: 99,
    }];
    let attrs = vec![
        Attribute { name: "id".to_string(), value: "root".to_string() },
        Attribute { name: "class".to_string(), value: "big".to_string() },
    ];
    let n = VNode::element(
        &mut arena,
        NodeKey::new("k0".to_string()),
        "svg".to_string(),
        listeners,
        attrs,
        vec![child],
        Some("http://www.w3.org/2000/svg".to_string()),
    );
    assert_eq!(n.key(&arena).0.as_deref(), Some("k0"));
    let e = match n {
        VNode::Element(i) => &arena.elements[i],
        _ => panic!("expected an element"),
    };
    assert_eq!(e.tag_name, "svg");
    assert_eq!(e.namespace.as_deref(), Some("http://www.w3.org/2000/svg"));
    assert_eq!(e.attributes.len(), 2);
    assert_eq!(e.attributes[0].name().as_str(), "id");
    assert_eq!(e.attributes[1].name().as_str(), "class");
    assert_eq!(e.listeners.len(), 1);
    assert_eq!(e.listeners[0].scope, 3);
    assert_eq!(e.listeners[0].id, 0);
    assert_eq!(e.children, vec![child]);
    assert_eq!(e.dom_id, None);
}

#[test]
fn text_and_suspended_have_no_key_and_suspended_no_cell() {
    let mut arena = Arena::new();
    let t = VNode::text(&mut arena, "x".to_string());
    assert!(t.key(&arena).is_none());
    assert!(t.has_dom_handle());
    assert!(VNode::Suspended.key(&arena).is_none());
    assert!(!VNode::Suspended.has_dom_handle());
}

#[test]
fn listener_handle_carries_dispatch_identity() {
    let l = Listener { event: "input".to_string(), scope: 2, id: 5, callback: 0 };
    let h = ListenerHandle { event: l.event.clone(), scope: l.scope, id: l.id };
    // The (scope, id) pair is all the dispatch runtime needs.
    assert_eq!((h.scope, h.id), (2, 5));
    assert_eq!(h.event, "input");
}

#[test]
fn component_cells_start_empty_and_mount_writes_them() {
    let mut arena = Arena::new();
    let slot = VNode::text(&mut arena, "slot".to_string());
    let comp = VComponent::new(7, ErasedProps::new(vec![5]), true, Some("c1".to_string()), vec![slot]);
    assert_eq!(comp.mounted_root, None);
    assert_eq!(comp.ass_scope, None);
    let n = arena.alloc_component(comp);
    assert!(n.has_dom_handle());
    assert_eq!(n.key(&arena).0.as_deref(), Some("c1"));
    assert_eq!(arena.read_scope(n), None);
    arena.associate_scope(n, 4);
    assert_eq!(arena.read_scope(n), Some(4));
    arena.write_dom_handle(n, 11);
    assert_eq!(arena.read_dom_handle(n), Some(11));
    let stored = match n {
        VNode::Component(i) => &arena.components[i],
        _ => panic!("expected a component"),
    };
    assert_eq!(stored.user_fc, 7);
    assert!(stored.memoized);
    assert_eq!(stored.children, vec![slot]);
}
