//! The tabbed container: its inputs, and what a render of it shows.
use crate::decimal::{decimal, decimal_text};
use crate::selection::Selection;
use dioxus::prelude::Element;
use vstd::prelude::*;
use vstd::string::StringExecFns;

verus! {

/// A node of the host framework's virtual tree, `dioxus_core::VNode`.
///
/// Nothing is claimed of it. The library never looks inside one: a node
/// travels from a tab to the rendered content region untouched.
#[verifier::external_type_specification]
#[verifier::external_body]
pub struct ExVNode(dioxus::dioxus_core::VNode);

/// One tab: the label of its selector button and the content shown while it
/// is selected. A tab is identified by its position alone; labels may repeat.
#[derive(Debug, Clone, PartialEq)]
pub struct TabVariant {
    pub name: String,
    pub variant: Element,
}

/// The inputs of the container: its tabs, in order, and a style class that
/// the caller adds to the container's own.
#[derive(Clone, PartialEq)]
pub struct TabSelectProps {
    tabs: Vec<TabVariant>,
    pub class: String,
}

impl TabSelectProps {
    /// The tabs, in order.
    pub closed spec fn tabs_view(&self) -> Seq<TabVariant> {
        self.tabs@
    }

    /// The caller's class.
    pub closed spec fn class_view(&self) -> Seq<char> {
        self.class@
    }

    /// Inputs with the given tabs and no class of the caller's.
    pub fn new(tabs: Vec<TabVariant>) -> (props: TabSelectProps)
        ensures
            props.tabs_view() == tabs@,
            props.class_view() == Seq::<char>::empty(),
    {
        TabSelectProps { tabs, class: String::new() }
    }

    /// The same tabs under another class.
    pub fn with_class(self, class: String) -> (props: TabSelectProps)
        ensures
            props.tabs_view() == self.tabs_view(),
            props.class_view() == class@,
    {
        TabSelectProps { tabs: self.tabs, class }
    }

    /// The caller's class.
    pub fn class(&self) -> (class: &str)
        ensures
            class@ == self.class_view(),
    {
        self.class.as_str()
    }

    /// The tabs, in order.
    pub fn tabs(&self) -> (tabs: &Vec<TabVariant>)
        ensures
            tabs@ == self.tabs_view(),
    {
        &self.tabs
    }
}

/// What a render shows of one selector button.
pub struct ButtonModel {
    /// The position of the button's tab, which activating the button selects.
    pub index: nat,
    pub label: Seq<char>,
    /// Whether the button is marked as the selected one.
    pub selected: bool,
    pub style: Seq<char>,
}

/// What a render shows: the container's attributes, the buttons in order,
/// and the content region, which holds one tab's content or nothing.
pub struct RenderModel {
    pub class: Seq<char>,
    pub style: Seq<char>,
    pub buttons: Seq<ButtonModel>,
    pub contents: Option<Element>,
}

/// One rendered selector button.
pub struct TabButton<'a> {
    pub index: usize,
    pub label: &'a str,
    pub selected: bool,
    pub style: &'static str,
}

impl<'a> View for TabButton<'a> {
    type V = ButtonModel;

    open spec fn view(&self) -> ButtonModel {
        ButtonModel {
            index: self.index as nat,
            label: self.label@,
            selected: self.selected,
            style: self.style@,
        }
    }
}

/// The content that a borrowed content region holds.
pub open spec fn content_model(contents: Option<&Element>) -> Option<Element> {
    match contents {
        Some(content) => Some(*content),
        None => None,
    }
}

/// One render of the container. The content is borrowed from the tabs.
pub struct TabSelectView<'a> {
    pub class: String,
    pub style: String,
    pub buttons: Vec<TabButton<'a>>,
    pub contents: Option<&'a Element>,
}

impl<'a> View for TabSelectView<'a> {
    type V = RenderModel;

    open spec fn view(&self) -> RenderModel {
        RenderModel {
            class: self.class@,
            style: self.style@,
            buttons: self.buttons@.map_values(|b: TabButton<'a>| b@),
            contents: content_model(self.contents),
        }
    }
}

/// The container's class attribute: its own class, a space, the caller's.
pub open spec fn container_class(class: Seq<char>) -> Seq<char> {
    "TabSelect "@ + class
}

/// The container's style attribute: a custom property that holds the number
/// of tabs as a decimal numeral.
pub open spec fn container_style(count: nat) -> Seq<char> {
    "--tab-count: "@ + decimal(count)
}

/// The style of a button: a highlighted border on the selected one, nothing
/// on the others.
pub open spec fn button_style(selected: bool) -> Seq<char> {
    if selected {
        "border: 3px solid red"@
    } else {
        ""@
    }
}

/// The button at position `idx` with the label `name`, while `selected` is
/// the selected position.
pub open spec fn button_for(idx: nat, name: Seq<char>, selected: nat) -> ButtonModel {
    ButtonModel {
        index: idx,
        label: name,
        selected: idx == selected,
        style: button_style(idx == selected),
    }
}

/// The content region: the content of the tab at `selected`, or nothing
/// where the sequence has no such tab.
pub open spec fn shown_content(tabs: Seq<TabVariant>, selected: nat) -> Option<Element> {
    if selected < tabs.len() {
        Some(tabs[selected as int].variant)
    } else {
        None
    }
}

/// The render of `tabs` under the caller's `class` while `selected` is the
/// selected position.
pub open spec fn render(tabs: Seq<TabVariant>, class: Seq<char>, selected: nat) -> RenderModel {
    RenderModel {
        class: container_class(class),
        style: container_style(tabs.len()),
        buttons: Seq::new(tabs.len(), |i: int| button_for(i as nat, tabs[i].name@, selected)),
        contents: shown_content(tabs, selected),
    }
}

/// Builds the container's class attribute.
pub fn container_class_text(class: &str) -> (text: String)
    ensures
        text@ == container_class(class@),
{
    String::from_str("TabSelect ").concat(class)
}

/// Builds the container's style attribute for `count` tabs.
pub fn container_style_text(count: usize) -> (text: String)
    ensures
        text@ == container_style(count as nat),
{
    let digits = decimal_text(count);
    String::from_str("--tab-count: ").concat(digits.as_str())
}

/// Renders the button of the tab at `idx`.
pub fn tab_button<'a>(idx: usize, name: &'a str, selected: usize) -> (button: TabButton<'a>)
    ensures
        button@ == button_for(idx as nat, name@, selected as nat),
{
    let is_selected = idx == selected;
    TabButton {
        index: idx,
        label: name,
        selected: is_selected,
        style: if is_selected {
            "border: 3px solid red"
        } else {
            ""
        },
    }
}

/// Looks up the content of the tab at `selected`. A position past the end
/// finds nothing; that is no error.
pub fn selected_content<'a>(tabs: &'a Vec<TabVariant>, selected: usize) -> (content: Option<
    &'a Element,
>)
    ensures
        content_model(content) == shown_content(tabs@, selected as nat),
{
    if selected < tabs.len() {
        Some(&tabs[selected].variant)
    } else {
        None
    }
}

/// Renders the container: one button per tab, in the order of the tabs, then
/// the content of the selected tab.
pub fn TabSelect<'a>(props: &'a TabSelectProps, selection: &Selection) -> (view: TabSelectView<'a>)
    ensures
        view@ == render(props.tabs_view(), props.class_view(), selection@),
        view.buttons@.len() == props.tabs_view().len(),
{
    let selected = selection.index();
    let tabs = &props.tabs;
    let mut buttons: Vec<TabButton<'a>> = Vec::new();
    let mut idx: usize = 0;
    while idx < tabs.len()
        invariant
            idx <= tabs@.len(),
            buttons@.len() == idx,
            forall|k: int|
                0 <= k < idx ==> (#[trigger] buttons@[k])@ == button_for(
                    k as nat,
                    tabs@[k].name@,
                    selected as nat,
                ),
        decreases tabs@.len() - idx,
    {
        buttons.push(tab_button(idx, tabs[idx].name.as_str(), selected));
        idx += 1;
    }
    let view = TabSelectView {
        class: container_class_text(props.class.as_str()),
        style: container_style_text(tabs.len()),
        buttons,
        contents: selected_content(tabs, selected),
    };
    assert(view@.buttons =~= render(props.tabs_view(), props.class_view(), selection@).buttons);
    view
}

} // verus!
