//! Where the dictionary page sits in the host's navigation.
use vstd::prelude::*;

verus! {

/// The scene (top-level area) a page belongs to.
#[derive(Debug, Clone, PartialEq, Eq)]
pub struct SceneEntry {
    pub id: String,
    pub label: String,
}

/// A menu group on the way to a page.
#[derive(Debug, Clone, PartialEq, Eq)]
pub struct MenuGroupEntry {
    pub id: String,
    pub label: String,
    pub icon: Option<String>,
}

/// A page that a plugin contributes to the host.
#[derive(Debug, Clone, PartialEq, Eq)]
pub struct PageEntry {
    pub id: String,
    pub label: String,
    pub icon: Option<String>,
    pub scene: SceneEntry,
    pub menu_path: Vec<MenuGroupEntry>,
    pub required_permission: Option<String>,
}

/// The dictionary management page: scene `system`, under the menu group
/// `system-management`, open to holders of `dictionary:manage`.
pub open spec fn is_dictionary_page(p: PageEntry) -> bool {
    &&& p.id@ == "dictionary-management"@
    &&& p.label@ == "字典管理"@
    &&& p.icon matches Some(icon) && icon@ == "book-open"@
    &&& p.scene.id@ == "system"@
    &&& p.scene.label@ == "系统"@
    &&& p.menu_path@.len() == 1
    &&& p.menu_path@[0].id@ == "system-management"@
    &&& p.menu_path@[0].label@ == "系统管理"@
    &&& p.menu_path@[0].icon matches Some(icon) && icon@ == "settings"@
    &&& p.required_permission matches Some(perm) && perm@ == "dictionary:manage"@
}

/// The client plugin of the dictionary.
#[derive(Debug, Clone, Copy, PartialEq, Eq)]
pub struct DictionaryPlugin;

impl DictionaryPlugin {
    /// The pages the plugin contributes: the dictionary management page alone.
    pub fn pages(&self) -> (r: Vec<PageEntry>)
        ensures
            r@.len() == 1,
            is_dictionary_page(r@[0]),
    {
        let mut menu_path: Vec<MenuGroupEntry> = Vec::new();
        menu_path.push(
            MenuGroupEntry {
                id: String::from_str("system-management"),
                label: String::from_str("系统管理"),
                icon: Some(String::from_str("settings")),
            },
        );
        let page = PageEntry {
            id: String::from_str("dictionary-management"),
            label: String::from_str("字典管理"),
            icon: Some(String::from_str("book-open")),
            scene: SceneEntry { id: String::from_str("system"), label: String::from_str("系统") },
            menu_path,
            required_permission: Some(String::from_str("dictionary:manage")),
        };
        let mut pages: Vec<PageEntry> = Vec::new();
        pages.push(page);
        pages
    }
}

} // verus!
