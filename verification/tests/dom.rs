use localghost::dom::body_element;
use localghost::dom::element::Element;
use localghost::dom::query_selector::element_from_match;
use localghost::dom::ready::{
    is_loaded_state, ready_step, step_allowed, ReadyAction, ReadyEvent, ReadyPhase,
};
use localghost::dom::text::Text;

#[test]
fn ready_resolves_immediately_when_complete() {
    let r = ready_step(
        ReadyPhase::Start,
        ReadyEvent::Polled(String::from("complete")),
    );
    assert_eq!(r, (ReadyPhase::Resolved, ReadyAction::Resolve));
}

#[test]
fn ready_resolves_immediately_when_interactive() {
    let r = ready_step(
        ReadyPhase::Start,
        ReadyEvent::Polled(String::from("interactive")),
    );
    assert_eq!(r, (ReadyPhase::Resolved, ReadyAction::Resolve));
}

#[test]
fn ready_subscribes_while_loading() {
    let r = ready_step(
        ReadyPhase::Start,
        ReadyEvent::Polled(String::from("loading")),
    );
    assert_eq!(r, (ReadyPhase::Waiting, ReadyAction::Subscribe));
}

#[test]
fn ready_resolves_exactly_once_after_one_shot_fires() {
    let events = vec![
        ReadyEvent::Polled(String::from("loading")),
        ReadyEvent::ContentLoaded,
    ];
    let mut phase = ReadyPhase::Start;
    let mut resolved: usize = 0;
    for event in events {
        assert!(step_allowed(&phase, &event));
        let (next, action) = ready_step(phase, event);
        phase = next;
        if action == ReadyAction::Resolve {
            resolved += 1;
        }
    }
    assert_eq!(resolved, 1);
    assert_eq!(phase, ReadyPhase::Resolved);
    // The one-shot is spent: no further event may reach the wait.
    assert!(!step_allowed(&phase, &ReadyEvent::ContentLoaded));
    assert!(!step_allowed(
        &phase,
        &ReadyEvent::Polled(String::from("complete"))
    ));
}

#[test]
fn ready_subscribes_at_most_once_per_wait() {
    let events = vec![
        ReadyEvent::Polled(String::from("loading")),
        ReadyEvent::ContentLoaded,
    ];
    let mut phase = ReadyPhase::Start;
    let mut subscribed: usize = 0;
    for event in events {
        assert!(step_allowed(&phase, &event));
        let (next, action) = ready_step(phase, event);
        phase = next;
        if action == ReadyAction::Subscribe {
            subscribed += 1;
        }
    }
    assert_eq!(subscribed, 1);
}

#[test]
fn one_shot_cannot_fire_before_subscription() {
    assert!(!step_allowed(&ReadyPhase::Start, &ReadyEvent::ContentLoaded));
    assert!(step_allowed(
        &ReadyPhase::Start,
        &ReadyEvent::Polled(String::from("loading"))
    ));
    assert!(step_allowed(&ReadyPhase::Waiting, &ReadyEvent::ContentLoaded));
    assert!(!step_allowed(
        &ReadyPhase::Waiting,
        &ReadyEvent::Polled(String::from("complete"))
    ));
}

#[test]
fn loaded_states_are_complete_and_interactive() {
    assert!(is_loaded_state("complete"));
    assert!(is_loaded_state("interactive"));
    assert!(!is_loaded_state("loading"));
    assert!(!is_loaded_state(""));
    assert!(!is_loaded_state("Complete"));
}

#[test]
fn query_with_no_match_yields_no_element() {
    assert!(element_from_match(None).is_none());
}

#[test]
fn query_match_yields_element_with_the_reported_tag() {
    let e = element_from_match(Some(String::from("div"))).unwrap();
    assert_eq!(e.tag(), "div");
    assert_eq!(e.text(), "");
    assert_eq!(e.child_count(), 0);
}

#[test]
fn body_handle_caches_the_body_tag() {
    let e = body_element();
    assert_eq!(e.tag(), "body");
    assert_eq!(e.child_count(), 0);
    assert_eq!(e.attribute("class"), None);
}

#[test]
fn element_caches_tag_and_text() {
    let e = Element::with_text("p", "Hello world");
    assert_eq!(e.tag(), "p");
    assert_eq!(e.text(), "Hello world");
    let plain = Element::new("div");
    assert_eq!(plain.tag(), "div");
    assert_eq!(plain.text(), "");
}

#[test]
fn attribute_set_then_read_yields_the_same_value() {
    let mut e = Element::new("input");
    e.set_attribute("type", "text");
    assert_eq!(e.attribute("type"), Some(String::from("text")));
}

#[test]
fn attribute_rewrite_yields_the_latest_value() {
    let mut e = Element::new("input");
    e.set_attribute("value", "World");
    e.set_attribute("value", "Verus");
    assert_eq!(e.attribute("value"), Some(String::from("Verus")));
}

#[test]
fn attributes_with_different_names_stay_apart() {
    let mut e = Element::new("input");
    e.set_attribute("type", "text");
    e.set_attribute("value", "World");
    assert_eq!(e.attribute("type"), Some(String::from("text")));
    assert_eq!(e.attribute("value"), Some(String::from("World")));
    assert_eq!(e.attribute("class"), None);
}

#[test]
fn unset_attribute_reads_back_as_nothing() {
    let e = Element::new("input");
    assert_eq!(e.attribute("type"), None);
}

#[test]
fn appended_children_are_kept_in_order() {
    let mut parent = Element::new("div");
    parent.append(Element::new("p"));
    parent.append(Element::with_text("span", "hi"));
    assert_eq!(parent.child_count(), 2);
    assert_eq!(parent.child(0).tag(), "p");
    assert_eq!(parent.child(1).tag(), "span");
    assert_eq!(parent.child(1).text(), "hi");
}

#[test]
fn subscriptions_are_counted() {
    let mut e = Element::new("input");
    assert_eq!(e.listener_count(), 0);
    e.on("input");
    e.on("change");
    assert_eq!(e.listener_count(), 2);
}

#[test]
fn text_node_caches_its_content() {
    let t = Text::new("Hello world");
    assert_eq!(t.content(), "Hello world");
    let empty = Text::new("");
    assert_eq!(empty.content(), "");
}
