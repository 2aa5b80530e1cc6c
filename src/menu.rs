//! The entries of the tray menu.

use vstd::prelude::*;

verus! {

/// Identifier of the tray icon.
pub const TRAY_ICON_ID: &'static str = "main";

/// Identifier of the tray menu.
pub const TRAY_MENU_ID: &'static str = "tray_menu";

/// The four fixed entries of the tray menu.
#[derive(Debug, Clone, Copy, PartialEq, Eq, Structural)]
pub enum MenuItemId {
    ShowHide,
    Config,
    Reload,
    Quit,
}

/// The identifier text of each entry.
pub open spec fn menu_id(m: MenuItemId) -> Seq<char> {
    match m {
        MenuItemId::ShowHide => "ShowHide"@,
        MenuItemId::Config => "Config"@,
        MenuItemId::Reload => "Reload"@,
        MenuItemId::Quit => "Quit"@,
    }
}

impl MenuItemId {
    /// The identifier text of the entry.
    pub fn id(&self) -> (r: &'static str)
        ensures
            r@ == menu_id(*self),
    {
        match self {
            MenuItemId::ShowHide => "ShowHide",
            MenuItemId::Config => "Config",
            MenuItemId::Reload => "Reload",
            MenuItemId::Quit => "Quit",
        }
    }

    /// The text shown for the entry.
    pub fn label(&self) -> (r: &'static str)
        ensures
            r@ == (match *self {
                MenuItemId::ShowHide => "Show/Hide"@,
                MenuItemId::Config => "Config"@,
                MenuItemId::Reload => "Reload"@,
                MenuItemId::Quit => "Quit"@,
            }),
    {
        match self {
            MenuItemId::ShowHide => "Show/Hide",
            MenuItemId::Config => "Config",
            MenuItemId::Reload => "Reload",
            MenuItemId::Quit => "Quit",
        }
    }

    /// The entry whose identifier is `id`, if any.
    pub fn from_id(id: &String) -> (r: Option<MenuItemId>)
        ensures
            r matches Some(m) ==> id@ == menu_id(m),
            r is None ==> forall|m: MenuItemId| id@ != #[trigger] menu_id(m),
    {
        if *id == "ShowHide".to_owned() {
            Some(MenuItemId::ShowHide)
        } else if *id == "Config".to_owned() {
            Some(MenuItemId::Config)
        } else if *id == "Reload".to_owned() {
            Some(MenuItemId::Reload)
        } else if *id == "Quit".to_owned() {
            Some(MenuItemId::Quit)
        } else {
            proof {
                assert forall|m: MenuItemId| id@ != #[trigger] menu_id(m) by {
                    match m {
                        MenuItemId::ShowHide => {},
                        MenuItemId::Config => {},
                        MenuItemId::Reload => {},
                        MenuItemId::Quit => {},
                    }
                }
            }
            None
        }
    }
}

} // verus!
