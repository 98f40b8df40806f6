//! The tabs of the dashboard that takes the key taps, and their places in the tab bars.

use vstd::prelude::*;
use vstd::std_specs::convert::FromSpecImpl;

verus! {

/// The tabs of the main menu, in the order of the tab bar.
#[derive(Clone, Copy, Debug)]
pub enum MenuItem {
    Stat,
    Inv,
    Data,
    MapTab,
    Radio,
}

/// The tabs below the status tab.
#[derive(Clone, Copy, Debug)]
pub enum StatSubMenu {
    General,
    Status,
    Settings,
}

/// The tabs below the inventory tab: the categories of items.
#[derive(Clone, Copy, Debug)]
pub enum InvSubMenu {
    Weapons,
    Apparel,
    Aid,
    Misc,
    Junk,
    Mods,
    Ammo,
}

/// The tabs below the data tab.
#[derive(Clone, Copy, Debug)]
pub enum DataSubMenu {
    Quests,
    Workshops,
    Stats,
}

impl MenuItem {
    /// The place of the tab in the tab bar, counted from 0.
    pub open spec fn index(self) -> usize {
        match self {
            MenuItem::Stat => 0,
            MenuItem::Inv => 1,
            MenuItem::Data => 2,
            MenuItem::MapTab => 3,
            MenuItem::Radio => 4,
        }
    }
}

impl StatSubMenu {
    /// The place of the tab in the tab bar, counted from 0.
    pub open spec fn index(self) -> usize {
        match self {
            StatSubMenu::General => 0,
            StatSubMenu::Status => 1,
            StatSubMenu::Settings => 2,
        }
    }
}

impl InvSubMenu {
    /// The place of the tab in the tab bar, counted from 0.
    pub open spec fn index(self) -> usize {
        match self {
            InvSubMenu::Weapons => 0,
            InvSubMenu::Apparel => 1,
            InvSubMenu::Aid => 2,
            InvSubMenu::Misc => 3,
            InvSubMenu::Junk => 4,
            InvSubMenu::Mods => 5,
            InvSubMenu::Ammo => 6,
        }
    }
}

impl DataSubMenu {
    /// The place of the tab in the tab bar, counted from 0.
    pub open spec fn index(self) -> usize {
        match self {
            DataSubMenu::Quests => 0,
            DataSubMenu::Workshops => 1,
            DataSubMenu::Stats => 2,
        }
    }
}

impl From<MenuItem> for usize {
    /// The place of the tab in the tab bar.
    fn from(input: MenuItem) -> (r: usize)
        ensures
            r == input.index(),
            r < 5,
    {
        match input {
            MenuItem::Stat => 0,
            MenuItem::Inv => 1,
            MenuItem::Data => 2,
            MenuItem::MapTab => 3,
            MenuItem::Radio => 4,
        }
    }
}

impl FromSpecImpl<MenuItem> for usize {
    open spec fn obeys_from_spec() -> bool {
        true
    }

    open spec fn from_spec(input: MenuItem) -> usize {
        input.index()
    }
}

impl From<StatSubMenu> for usize {
    /// The place of the tab in the tab bar.
    fn from(input: StatSubMenu) -> (r: usize)
        ensures
            r == input.index(),
            r < 3,
    {
        match input {
            StatSubMenu::General => 0,
            StatSubMenu::Status => 1,
            StatSubMenu::Settings => 2,
        }
    }
}

impl FromSpecImpl<StatSubMenu> for usize {
    open spec fn obeys_from_spec() -> bool {
        true
    }

    open spec fn from_spec(input: StatSubMenu) -> usize {
        input.index()
    }
}

impl From<InvSubMenu> for usize {
    /// The place of the tab in the tab bar.
    fn from(input: InvSubMenu) -> (r: usize)
        ensures
            r == input.index(),
            r < 7,
    {
        match input {
            InvSubMenu::Weapons => 0,
            InvSubMenu::Apparel => 1,
            InvSubMenu::Aid => 2,
            InvSubMenu::Misc => 3,
            InvSubMenu::Junk => 4,
            InvSubMenu::Mods => 5,
            InvSubMenu::Ammo => 6,
        }
    }
}

impl FromSpecImpl<InvSubMenu> for usize {
    open spec fn obeys_from_spec() -> bool {
        true
    }

    open spec fn from_spec(input: InvSubMenu) -> usize {
        input.index()
    }
}

impl From<DataSubMenu> for usize {
    /// The place of the tab in the tab bar.
    fn from(input: DataSubMenu) -> (r: usize)
        ensures
            r == input.index(),
            r < 3,
    {
        match input {
            DataSubMenu::Quests => 0,
            DataSubMenu::Workshops => 1,
            DataSubMenu::Stats => 2,
        }
    }
}

impl FromSpecImpl<DataSubMenu> for usize {
    open spec fn obeys_from_spec() -> bool {
        true
    }

    open spec fn from_spec(input: DataSubMenu) -> usize {
        input.index()
    }
}

} // verus!
