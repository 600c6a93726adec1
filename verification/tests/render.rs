use dioxus::dioxus_core::{Template, VNode};
use dioxus::prelude::Element;
use tab_select::selection::Selection;
use tab_select::tab_select::{
    container_class_text, container_style_text, selected_content, tab_button, TabSelect,
    TabSelectProps, TabVariant,
};

const HIGHLIGHT: &str = "border: 3px solid red";

/// A fresh node. Two nodes compare equal only if one is a clone of the other.
fn node() -> Element {
    let template = Template {
        name: "tests/render",
        roots: &[],
        node_paths: &[],
        attr_paths: &[],
    };
    Some(VNode::new(None, template, Box::new([]), Box::new([])))
}

fn tab(name: &str, variant: &Element) -> TabVariant {
    TabVariant {
        name: name.to_string(),
        variant: variant.clone(),
    }
}

fn marks(props: &TabSelectProps, selection: &Selection) -> Vec<bool> {
    TabSelect(props, selection)
        .buttons
        .iter()
        .map(|button| button.selected)
        .collect()
}

#[test]
fn distinct_nodes_are_told_apart() {
    let a = node();
    let b = node();
    assert_ne!(a, b);
    assert_eq!(a, a.clone());
}

#[test]
fn initial_render_shows_first_tab() {
    let (a, b, c) = (node(), node(), node());
    let props = TabSelectProps::new(vec![tab("One", &a), tab("Two", &b), tab("Three", &c)]);
    let selection = Selection::new();
    let view = TabSelect(&props, &selection);
    assert_eq!(view.contents, Some(&a));
    assert_ne!(view.contents, Some(&b));
    assert_eq!(view.buttons.len(), 3);
    assert!(view.buttons[0].selected);
    assert!(!view.buttons[1].selected);
    assert!(!view.buttons[2].selected);
    assert_eq!(view.buttons[0].style, HIGHLIGHT);
    assert_eq!(view.buttons[1].style, "");
    assert_eq!(view.buttons[2].style, "");
}

#[test]
fn initial_render_of_a_single_tab() {
    let a = node();
    let props = TabSelectProps::new(vec![tab("Only", &a)]);
    let view = TabSelect(&props, &Selection::new());
    assert_eq!(view.contents, Some(&a));
    assert_eq!(marks(&props, &Selection::new()), vec![true]);
    assert_eq!(view.style, "--tab-count: 1");
}

#[test]
fn selecting_changes_content_and_mark() {
    let nodes = [node(), node(), node()];
    let props = TabSelectProps::new(vec![
        tab("One", &nodes[0]),
        tab("Two", &nodes[1]),
        tab("Three", &nodes[2]),
    ]);
    for i in 0..3usize {
        for j in 0..3usize {
            if i == j {
                continue;
            }
            let mut selection = Selection::new();
            selection.select(i);
            assert_eq!(TabSelect(&props, &selection).contents, Some(&nodes[i]));
            selection.select(j);
            let view = TabSelect(&props, &selection);
            assert_eq!(view.contents, Some(&nodes[j]));
            assert_ne!(view.contents, Some(&nodes[i]));
            for (k, button) in view.buttons.iter().enumerate() {
                assert_eq!(button.selected, k == j);
                assert_eq!(button.style, if k == j { HIGHLIGHT } else { "" });
            }
        }
    }
}

#[test]
fn reselecting_changes_nothing() {
    let (a, b) = (node(), node());
    let props = TabSelectProps::new(vec![tab("One", &a), tab("Two", &b)]);
    let mut selection = Selection::new();
    selection.select(1);
    let before = selection;
    let marks_before = marks(&props, &selection);
    selection.select(1);
    assert_eq!(selection, before);
    let view = TabSelect(&props, &selection);
    assert_eq!(view.contents, Some(&b));
    assert_eq!(marks(&props, &selection), marks_before);
    assert_eq!(marks_before, vec![false, true]);
}

#[test]
fn empty_sequence_renders_nothing() {
    let props = TabSelectProps::new(Vec::new());
    let view = TabSelect(&props, &Selection::new());
    assert!(view.buttons.is_empty());
    assert_eq!(view.contents, None);
    assert_eq!(view.class, "TabSelect ");
    assert_eq!(view.style, "--tab-count: 0");
}

#[test]
fn shrunk_sequence_leaves_selection_unbound() {
    let (a, b, c) = (node(), node(), node());
    let wide = TabSelectProps::new(vec![tab("One", &a), tab("Two", &b), tab("Three", &c)]);
    let mut selection = Selection::new();
    selection.select(2);
    assert_eq!(TabSelect(&wide, &selection).contents, Some(&c));

    let narrow = TabSelectProps::new(vec![tab("One", &a)]);
    let view = TabSelect(&narrow, &selection);
    assert_eq!(selection.index(), 2);
    assert!(!selection.is_bound(1));
    assert_eq!(view.contents, None);
    assert_eq!(view.buttons.len(), 1);
    assert!(!view.buttons[0].selected);
    assert_eq!(view.buttons[0].style, "");

    selection.select(view.buttons[0].index);
    let view = TabSelect(&narrow, &selection);
    assert_eq!(view.contents, Some(&a));
    assert!(view.buttons[0].selected);
}

#[test]
fn buttons_follow_the_tabs_in_order() {
    let nodes = [node(), node(), node(), node()];
    let names = ["delta", "alpha", "charlie", "bravo"];
    let tabs: Vec<TabVariant> = names.iter().zip(nodes.iter()).map(|(n, e)| tab(n, e)).collect();
    let props = TabSelectProps::new(tabs);
    let view = TabSelect(&props, &Selection::new());
    assert_eq!(view.buttons.len(), 4);
    for (k, button) in view.buttons.iter().enumerate() {
        assert_eq!(button.index, k);
        assert_eq!(button.label, names[k]);
    }
}

#[test]
fn duplicate_labels_stay_apart_by_position() {
    let (a, b) = (node(), node());
    let props = TabSelectProps::new(vec![tab("Same", &a), tab("Same", &b)]);
    let mut selection = Selection::new();
    selection.select(1);
    let view = TabSelect(&props, &selection);
    assert_eq!(view.buttons[0].label, "Same");
    assert_eq!(view.buttons[1].label, "Same");
    assert_eq!(marks(&props, &selection), vec![false, true]);
    assert_eq!(view.contents, Some(&b));
}

#[test]
fn empty_content_is_still_a_tab() {
    let a = node();
    let nothing: Element = None;
    let props = TabSelectProps::new(vec![tab("Blank", &nothing), tab("Full", &a)]);
    let view = TabSelect(&props, &Selection::new());
    assert_eq!(view.contents, Some(&nothing));
    assert!(view.buttons[0].selected);
}

#[test]
fn container_carries_both_classes() {
    let props = TabSelectProps::new(Vec::new()).with_class("wide dark".to_string());
    let view = TabSelect(&props, &Selection::new());
    assert_eq!(view.class, "TabSelect wide dark");
    assert_eq!(container_class_text("sidebar"), "TabSelect sidebar");
    assert_eq!(container_class_text(""), "TabSelect ");
}

#[test]
fn container_style_exposes_the_count() {
    let a = node();
    let tabs: Vec<TabVariant> = (0..12).map(|k| tab(&format!("Tab {k}"), &a)).collect();
    let props = TabSelectProps::new(tabs);
    let view = TabSelect(&props, &Selection::new());
    assert_eq!(view.style, "--tab-count: 12");
    assert_eq!(container_style_text(3), "--tab-count: 3");
    assert_eq!(container_style_text(100), "--tab-count: 100");
}

#[test]
fn class_does_not_reach_buttons_or_content() {
    let (a, b) = (node(), node());
    let plain = TabSelectProps::new(vec![tab("One", &a), tab("Two", &b)]);
    let styled = plain.clone().with_class("fancy".to_string());
    let mut selection = Selection::new();
    selection.select(1);
    let (left, right) = (TabSelect(&plain, &selection), TabSelect(&styled, &selection));
    assert_eq!(left.contents, right.contents);
    assert_eq!(left.style, right.style);
    assert_eq!(marks(&plain, &selection), marks(&styled, &selection));
    assert_ne!(left.class, right.class);
}

#[test]
fn props_keep_what_they_were_given() {
    let (a, b) = (node(), node());
    let props = TabSelectProps::new(vec![tab("One", &a), tab("Two", &b)]);
    assert_eq!(props.class, "");
    assert_eq!(props.class(), "");
    assert_eq!(props.tabs().len(), 2);
    assert_eq!(props.tabs()[1].name, "Two");
    assert_eq!(props.tabs()[1].variant, b);
    let props = props.with_class("mine".to_string());
    assert_eq!(props.class(), "mine");
    assert_eq!(props.tabs().len(), 2);
    assert_eq!(props.tabs()[0].variant, a);
}

#[test]
fn tab_button_marks_only_its_own_position() {
    let hit = tab_button(4, "Four", 4);
    assert_eq!(hit.index, 4);
    assert_eq!(hit.label, "Four");
    assert!(hit.selected);
    assert_eq!(hit.style, HIGHLIGHT);
    let miss = tab_button(4, "Four", 5);
    assert_eq!(miss.index, 4);
    assert_eq!(miss.label, "Four");
    assert!(!miss.selected);
    assert_eq!(miss.style, "");
}

#[test]
fn selected_content_is_a_checked_lookup() {
    let (a, b) = (node(), node());
    let tabs = vec![tab("One", &a), tab("Two", &b)];
    assert_eq!(selected_content(&tabs, 0), Some(&a));
    assert_eq!(selected_content(&tabs, 1), Some(&b));
    assert_eq!(selected_content(&tabs, 2), None);
    assert_eq!(selected_content(&tabs, usize::MAX), None);
    assert_eq!(selected_content(&Vec::new(), 0), None);
}
