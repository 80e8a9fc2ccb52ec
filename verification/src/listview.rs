//! A list of items with a selectable look: its state and its updates.
use vstd::prelude::*;

verus! {

#[derive(Debug, Clone)]
pub enum Message {
    ItemClicked(usize),
    SetTheme(ListTheme),
}

#[derive(Debug, Clone, Copy, PartialEq, Eq, Structural)]
pub enum ListTheme {
    Default,
    Dark,
    Minimal,
    Cards,
    Gaming,
    Professional,
    Colorful,
    Terminal,
}

#[derive(Debug, Clone)]
pub struct ListItem {
    pub id: usize,
    pub name: String,
    pub description: String,
}

pub struct ThemedListView {
    pub items: Vec<ListItem>,
    pub current_theme: ListTheme,
    pub selected_item_id: Option<usize>,
}

fn item(id: usize, name: &str, description: &str) -> (r: ListItem)
    ensures
        r.id == id,
        r.name@ == name@,
        r.description@ == description@,
{
    ListItem { id, name: name.to_owned(), description: description.to_owned() }
}

impl ThemedListView {
    /// Five sample items, the default look, nothing selected.
    pub fn new() -> (r: Self)
        ensures
            r.items.len() == 5,
            forall|i: int| 0 <= i < 5 ==> (#[trigger] r.items@[i]).id == i + 1,
            r.current_theme == ListTheme::Default,
            r.selected_item_id is None,
    {
        let items = vec![
            item(1, "System Process", "Core system process running in background"),
            item(2, "User Application", "Application started by user with normal priority"),
            item(3, "Network Service", "Service handling network communications"),
            item(4, "Background Task", "Scheduled task performing maintenance operations"),
            item(5, "Media Player", "Audio/video playback service with high priority"),
        ];
        ThemedListView { items, current_theme: ListTheme::Default, selected_item_id: None }
    }

    pub fn title(&self) -> (r: String)
        ensures
            r@ == "Themed ListView Examples"@,
    {
        "Themed ListView Examples".to_owned()
    }

    /// A click selects the item; a theme message changes the look.
    pub fn update(&mut self, message: Message)
        ensures
            match message {
                Message::ItemClicked(id) => final(self).selected_item_id == Some(id)
                    && final(self).current_theme == old(self).current_theme,
                Message::SetTheme(theme) => final(self).current_theme == theme
                    && final(self).selected_item_id == old(self).selected_item_id,
            },
            final(self).items@ == old(self).items@,
    {
        match message {
            Message::ItemClicked(id) => {
                self.selected_item_id = Some(id);
            },
            Message::SetTheme(theme) => {
                self.current_theme = theme;
            },
        }
    }
}

} // verus!
