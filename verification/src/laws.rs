//! What holds of every render, whatever the tabs and the selection.
use crate::selection::Selection;
use crate::tab_select::{button_style, render, TabVariant};
use vstd::prelude::*;

verus! {

/// Right after mount a container with at least one tab shows the content of
/// the first tab, and marks the first button and no other.
pub proof fn law_initial_render(tabs: Seq<TabVariant>, class: Seq<char>)
    requires
        tabs.len() > 0,
    ensures
        render(tabs, class, Selection::mounted()@).contents == Some(tabs[0].variant),
        render(tabs, class, Selection::mounted()@).buttons[0].selected,
        forall|k: int|
            0 < k < tabs.len() ==> !(#[trigger] render(
                tabs,
                class,
                Selection::mounted()@,
            ).buttons[k]).selected,
{
}

/// Activating the button of one tab and then the button of another shows
/// the content of the second, and marks the second button and no other,
/// whatever was selected before.
pub proof fn law_last_activation_wins(
    tabs: Seq<TabVariant>,
    class: Seq<char>,
    before: Selection,
    i: usize,
    j: usize,
)
    requires
        i < tabs.len(),
        j < tabs.len(),
        i != j,
    ensures
        render(tabs, class, before.activated(i).activated(j)@).contents == Some(
            tabs[j as int].variant,
        ),
        forall|k: int|
            0 <= k < tabs.len() ==> ((#[trigger] render(
                tabs,
                class,
                before.activated(i).activated(j)@,
            ).buttons[k]).selected <==> k == j),
{
}

/// Activating the button of a tab shows that tab's content, from any state:
/// this is also how a selection that was bound to no tab becomes bound again.
pub proof fn law_activation_shows_tab(
    tabs: Seq<TabVariant>,
    class: Seq<char>,
    before: Selection,
    i: usize,
)
    requires
        i < tabs.len(),
    ensures
        before.activated(i).bound(tabs.len()),
        render(tabs, class, before.activated(i)@).contents == Some(tabs[i as int].variant),
        render(tabs, class, before.activated(i)@).buttons[i as int].selected,
{
}

/// Activating the button that is already selected changes neither the
/// selection nor anything that is rendered.
pub proof fn law_reselect_is_idempotent(
    tabs: Seq<TabVariant>,
    class: Seq<char>,
    current: Selection,
)
    ensures
        current.activated(current.selected) == current,
        render(tabs, class, current.activated(current.selected)@) == render(
            tabs,
            class,
            current@,
        ),
{
}

/// Without tabs there is no button and no content, under any selection.
pub proof fn law_empty_render(class: Seq<char>, current: Selection)
    ensures
        render(Seq::<TabVariant>::empty(), class, current@).buttons.len() == 0,
        render(Seq::<TabVariant>::empty(), class, current@).contents.is_none(),
{
}

/// A selection past the end of the tabs, as one left behind by a sequence
/// that has shrunk, shows no content and marks no button.
pub proof fn law_stale_selection_shows_nothing(
    tabs: Seq<TabVariant>,
    class: Seq<char>,
    current: Selection,
)
    requires
        !current.bound(tabs.len()),
    ensures
        render(tabs, class, current@).contents.is_none(),
        forall|k: int|
            0 <= k < tabs.len() ==> !(#[trigger] render(tabs, class, current@).buttons[k]).selected,
{
}

/// There is one button per tab, in the order of the tabs: the button at each
/// position carries that position and the label of the tab there.
pub proof fn law_buttons_follow_tabs(tabs: Seq<TabVariant>, class: Seq<char>, current: Selection)
    ensures
        render(tabs, class, current@).buttons.len() == tabs.len(),
        forall|k: int|
            0 <= k < tabs.len() ==> {
                &&& (#[trigger] render(tabs, class, current@).buttons[k]).index == k
                &&& render(tabs, class, current@).buttons[k].label == tabs[k].name@
            },
{
}

/// The marked button is the one at the selected position and no other, and
/// a button carries the highlight exactly when it is marked. So at most one
/// button is marked, and exactly one while the selection is bound.
pub proof fn law_mark_matches_selection(
    tabs: Seq<TabVariant>,
    class: Seq<char>,
    current: Selection,
)
    ensures
        forall|k: int|
            0 <= k < tabs.len() ==> {
                &&& ((#[trigger] render(tabs, class, current@).buttons[k]).selected <==> k
                    == current@)
                &&& render(tabs, class, current@).buttons[k].style == button_style(k == current@)
            },
{
}

/// The content region depends on the tabs and the selection alone, and the
/// buttons on the labels and the selection alone: the caller's class reaches
/// nothing but the container's class attribute.
pub proof fn law_class_is_cosmetic(
    tabs: Seq<TabVariant>,
    class: Seq<char>,
    other: Seq<char>,
    current: Selection,
)
    ensures
        render(tabs, class, current@).buttons == render(tabs, other, current@).buttons,
        render(tabs, class, current@).contents == render(tabs, other, current@).contents,
        render(tabs, class, current@).style == render(tabs, other, current@).style,
{
}

} // verus!
