use encoder_input::menus::{DataSubMenu, InvSubMenu, MenuItem, StatSubMenu};

#[test]
fn main_tabs_are_numbered_in_order() {
    assert_eq!(usize::from(MenuItem::Stat), 0);
    assert_eq!(usize::from(MenuItem::Inv), 1);
    assert_eq!(usize::from(MenuItem::Data), 2);
    assert_eq!(usize::from(MenuItem::MapTab), 3);
    assert_eq!(usize::from(MenuItem::Radio), 4);
}

#[test]
fn status_tabs_are_numbered_in_order() {
    assert_eq!(usize::from(StatSubMenu::General), 0);
    assert_eq!(usize::from(StatSubMenu::Status), 1);
    assert_eq!(usize::from(StatSubMenu::Settings), 2);
}

#[test]
fn inventory_tabs_are_numbered_in_order() {
    let tabs = [
        InvSubMenu::Weapons,
        InvSubMenu::Apparel,
        InvSubMenu::Aid,
        InvSubMenu::Misc,
        InvSubMenu::Junk,
        InvSubMenu::Mods,
        InvSubMenu::Ammo,
    ];
    for (place, tab) in tabs.into_iter().enumerate() {
        assert_eq!(usize::from(tab), place);
    }
}

#[test]
fn data_tabs_are_numbered_in_order() {
    assert_eq!(usize::from(DataSubMenu::Quests), 0);
    assert_eq!(usize::from(DataSubMenu::Workshops), 1);
    assert_eq!(usize::from(DataSubMenu::Stats), 2);
}

#[test]
fn tab_converts_with_into() {
    let place: usize = MenuItem::Radio.into();
    assert_eq!(place, 4);
}
