//! The tabs of the designer's dock.

use vstd::prelude::*;
use crate::components::Tab;
use crate::components::TabKind;

verus! {

/// Whether `tab` has this name, kind and number.
pub open spec fn is_tab(tab: Tab, name: Seq<char>, kind: TabKind, id: usize) -> bool {
    tab.name@ == name && tab.kind == kind && tab.id == id
}

/// Whether `tabs` are the tabs that the designer starts with when no layout
/// was saved: the main work area, the inspector, the controls, the
/// settings, the event logger and the preview, numbered from zero.
pub open spec fn is_default_layout(tabs: Seq<Tab>) -> bool {
    &&& tabs.len() == 6
    &&& is_tab(tabs[0], "Main Work"@, TabKind::MainWork, 0)
    &&& is_tab(tabs[1], "Inspector"@, TabKind::Inspector, 1)
    &&& is_tab(tabs[2], "Controls"@, TabKind::Controls, 2)
    &&& is_tab(tabs[3], "Settings"@, TabKind::Settings, 3)
    &&& is_tab(tabs[4], "Event Logger"@, TabKind::EventLogger, 4)
    &&& is_tab(tabs[5], "Preview"@, TabKind::Preview, 5)
}

fn make_tab(name: &str, kind: TabKind, id: usize) -> (tab: Tab)
    ensures
        is_tab(tab, name@, kind, id),
{
    Tab { name: String::from_str(name), kind, id }
}

/// Creates the default dock layout with all tabs.
pub fn create_default_dock_layout() -> (tabs: Vec<Tab>)
    ensures
        is_default_layout(tabs@),
{
    let mut tabs: Vec<Tab> = Vec::new();
    tabs.push(make_tab("Main Work", TabKind::MainWork, 0));
    tabs.push(make_tab("Inspector", TabKind::Inspector, 1));
    tabs.push(make_tab("Controls", TabKind::Controls, 2));
    tabs.push(make_tab("Settings", TabKind::Settings, 3));
    tabs.push(make_tab("Event Logger", TabKind::EventLogger, 4));
    tabs.push(make_tab("Preview", TabKind::Preview, 5));
    tabs
}

/// Whether some tab of `tabs` is of the kind `kind`.
pub open spec fn has_tab_of_kind(tabs: Seq<Tab>, kind: TabKind) -> bool {
    exists|i: int| 0 <= i < tabs.len() && (#[trigger] tabs[i]).kind == kind
}

/// Whether a layout shows a tab of the kind `kind`.
pub fn shows_tab_of_kind(tabs: &Vec<Tab>, kind: TabKind) -> (shown: bool)
    ensures
        shown == has_tab_of_kind(tabs@, kind),
{
    let mut i: usize = 0;
    while i < tabs.len()
        invariant
            i <= tabs@.len(),
            forall|k: int| 0 <= k < i ==> (#[trigger] tabs@[k]).kind != kind,
        decreases tabs@.len() - i,
    {
        if tabs[i].kind == kind {
            return true;
        }
        i += 1;
    }
    false
}

/// Adds the preview tab to a layout that does not show one. Answers
/// whether it was added.
pub fn add_preview_tab(tabs: &mut Vec<Tab>) -> (added: bool)
    ensures
        added == !has_tab_of_kind(old(tabs)@, TabKind::Preview),
        !added ==> final(tabs)@ == old(tabs)@,
        added ==> final(tabs)@.len() == old(tabs)@.len() + 1 && final(tabs)@.drop_last() == old(
            tabs,
        )@ && is_tab(final(tabs)@.last(), "Preview"@, TabKind::Preview, 5),
{
    if shows_tab_of_kind(tabs, TabKind::Preview) {
        false
    } else {
        tabs.push(make_tab("Preview", TabKind::Preview, 5));
        assert(tabs@.drop_last() =~= old(tabs)@);
        true
    }
}

} // verus!
