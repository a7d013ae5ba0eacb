//! Menus: items, the animated selectable list every screen builds on,
//! a builder for assembling one, and the preset menus of the fixed views.

use vstd::prelude::*;
use vstd::string::StringExecFns;
use crate::animation::AnimationState;
use crate::easing::EASE_SCALE;

verus! {

/// The largest menu the application builds.
pub const MENU_LIMIT: usize = 65536;

/// The highlight pulse phase wraps after one full turn (two half-turns of
/// `EASE_SCALE` each).
pub const PULSE_WRAP: u64 = 14080;

/// One selectable row of a menu.
#[derive(Debug)]
pub struct MenuItem {
    pub title: String,
    pub description: Option<String>,
    pub icon: Option<String>,
    pub enabled: bool,
    pub hotkey: Option<char>,
}

impl Clone for MenuItem {
    fn clone(&self) -> (r: MenuItem)
        ensures
            r == *self,
    {
        MenuItem {
            title: self.title.clone(),
            description: match &self.description {
                Some(d) => Some(d.clone()),
                None => None,
            },
            icon: match &self.icon {
                Some(i) => Some(i.clone()),
                None => None,
            },
            enabled: self.enabled,
            hotkey: self.hotkey,
        }
    }
}

impl MenuItem {
    pub fn new(title: &str) -> (r: MenuItem)
        ensures
            r.title@ == title@,
            r.description is None,
            r.icon is None,
            r.enabled,
            r.hotkey is None,
    {
        MenuItem {
            title: title.to_owned(),
            description: None,
            icon: None,
            enabled: true,
            hotkey: None,
        }
    }

    pub fn with_description(self, desc: &str) -> (r: MenuItem)
        ensures
            r.title == self.title,
            r.description matches Some(d) && d@ == desc@,
            r.icon == self.icon,
            r.enabled == self.enabled,
            r.hotkey == self.hotkey,
    {
        MenuItem { description: Some(desc.to_owned()), ..self }
    }

    pub fn with_icon(self, icon: &str) -> (r: MenuItem)
        ensures
            r.title == self.title,
            r.description == self.description,
            r.icon matches Some(i) && i@ == icon@,
            r.enabled == self.enabled,
            r.hotkey == self.hotkey,
    {
        MenuItem { icon: Some(icon.to_owned()), ..self }
    }

    pub fn with_hotkey(self, key: char) -> (r: MenuItem)
        ensures
            r.title == self.title,
            r.description == self.description,
            r.icon == self.icon,
            r.enabled == self.enabled,
            r.hotkey == Some(key),
    {
        MenuItem { hotkey: Some(key), ..self }
    }

    pub fn disabled(self) -> (r: MenuItem)
        ensures
            r.title == self.title,
            r.description == self.description,
            r.icon == self.icon,
            !r.enabled,
            r.hotkey == self.hotkey,
    {
        MenuItem { enabled: false, ..self }
    }
}

/// A selectable list with entrance, highlight-pulse and slide animations.
#[derive(Debug)]
pub struct AnimatedMenu {
    pub items: Vec<MenuItem>,
    pub selected: usize,
    pub title: Option<String>,
    pub show_help: bool,
    pub show_borders: bool,
    pub animation_offset: i64,
    pub highlight_animation: u64,
    pub entrance_animation: i64,
}

impl AnimatedMenu {
    /// The selection always points at an item while there is one, and the
    /// animation accumulators stay in their bands.
    pub open spec fn wf(self) -> bool {
        &&& self.items@.len() <= MENU_LIMIT
        &&& (self.items@.len() > 0 ==> self.selected < self.items@.len())
        &&& (self.items@.len() == 0 ==> self.selected == 0)
        &&& 0 <= self.entrance_animation <= EASE_SCALE
        &&& self.highlight_animation < PULSE_WRAP
    }

    pub fn new(items: Vec<MenuItem>) -> (r: AnimatedMenu)
        requires
            items@.len() <= MENU_LIMIT,
        ensures
            r.wf(),
            r.items == items,
            r.selected == 0,
            r.title is None,
            r.show_help,
            r.show_borders,
            r.entrance_animation == 0,
            r.highlight_animation == 0,
    {
        AnimatedMenu {
            items,
            selected: 0,
            title: None,
            show_help: true,
            show_borders: true,
            animation_offset: 0,
            highlight_animation: 0,
            entrance_animation: 0,
        }
    }

    pub fn with_title(self, title: String) -> (r: AnimatedMenu)
        ensures
            r == (AnimatedMenu { title: Some(title), ..self }),
    {
        AnimatedMenu { title: Some(title), ..self }
    }

    pub fn with_help(self, show: bool) -> (r: AnimatedMenu)
        ensures
            r == (AnimatedMenu { show_help: show, ..self }),
    {
        AnimatedMenu { show_help: show, ..self }
    }

    pub fn with_borders(self, show: bool) -> (r: AnimatedMenu)
        ensures
            r == (AnimatedMenu { show_borders: show, ..self }),
    {
        AnimatedMenu { show_borders: show, ..self }
    }

    /// Move the selection one row down, wrapping to the top, and restart
    /// the highlight pulse. An empty menu is left alone.
    pub fn select_next(&mut self)
        requires
            old(self).wf(),
        ensures
            final(self).wf(),
            final(self).items == old(self).items,
            old(self).items@.len() > 0 ==> final(self).selected == (old(self).selected + 1) as int
                % old(self).items@.len() as int && final(self).highlight_animation == 0,
            old(self).items@.len() == 0 ==> *final(self) == *old(self),
            final(self).title == old(self).title,
            final(self).entrance_animation == old(self).entrance_animation,
    {
        if self.items.len() > 0 {
            self.selected = (self.selected + 1) % self.items.len();
            self.highlight_animation = 0;
        }
    }

    /// Move the selection one row up, wrapping to the bottom, and restart
    /// the highlight pulse. An empty menu is left alone.
    pub fn select_previous(&mut self)
        requires
            old(self).wf(),
        ensures
            final(self).wf(),
            final(self).items == old(self).items,
            old(self).items@.len() > 0 ==> final(self).selected == (if old(self).selected == 0 {
                old(self).items@.len() - 1
            } else {
                old(self).selected - 1
            }) && final(self).highlight_animation == 0,
            old(self).items@.len() == 0 ==> *final(self) == *old(self),
            final(self).title == old(self).title,
            final(self).entrance_animation == old(self).entrance_animation,
    {
        if self.items.len() > 0 {
            self.selected = if self.selected == 0 {
                self.items.len() - 1
            } else {
                self.selected - 1
            };
            self.highlight_animation = 0;
        }
    }

    /// Jump the selection to an index; one past the end is ignored.
    pub fn select_item(&mut self, index: usize)
        requires
            old(self).wf(),
        ensures
            final(self).wf(),
            final(self).items == old(self).items,
            index < old(self).items@.len() ==> final(self).selected == index
                && final(self).highlight_animation == 0,
            index >= old(self).items@.len() ==> *final(self) == *old(self),
    {
        if index < self.items.len() {
            self.selected = index;
            self.highlight_animation = 0;
        }
    }

    /// The selected row, while the menu has any.
    pub fn selected_item(&self) -> (r: Option<&MenuItem>)
        requires
            self.wf(),
        ensures
            self.items@.len() > 0 ==> (r matches Some(item) && *item == self.items@[
                self.selected as int
            ]),
            self.items@.len() == 0 ==> r is None,
    {
        if self.items.len() > 0 {
            Some(&self.items[self.selected])
        } else {
            None
        }
    }

    pub fn selected_index(&self) -> (r: usize)
        ensures
            r == self.selected,
    {
        self.selected
    }

    pub fn items(&self) -> (r: &Vec<MenuItem>)
        ensures
            r == &self.items,
    {
        &self.items
    }

    /// How the menu's animations step over one frame delta: the entrance
    /// slide eases towards done at triple speed, the highlight pulse
    /// keeps turning, the slide offset follows the clock's menu-highlight
    /// tween, and nothing else moves. [`Self::update`] ensures exactly
    /// this relation.
    pub open spec fn updated(
        pre: AnimatedMenu,
        post: AnimatedMenu,
        delta_ms: u64,
        animation_state: AnimationState,
    ) -> bool {
        &&& post.items == pre.items
        &&& post.selected == pre.selected
        &&& post.title == pre.title
        &&& post.show_help == pre.show_help
        &&& post.show_borders == pre.show_borders
        &&& post.entrance_animation == min_64(
            pre.entrance_animation + 3 * delta_ms * (EASE_SCALE as int) / 1000,
            EASE_SCALE as int,
        )
        &&& post.highlight_animation == (pre.highlight_animation + 2 * delta_ms) % (
        PULSE_WRAP as int)
        &&& ({
            let target = animation_state.menu_highlight.current_value;
            let sel_scaled = pre.selected * (EASE_SCALE as int);
            if target >= sel_scaled {
                post.animation_offset == (target - sel_scaled) / 10
            } else {
                post.animation_offset == pre.animation_offset
            }
        })
    }

    /// Advance the menu's animations by a frame delta.
    pub fn update(&mut self, delta_ms: u64, animation_state: &AnimationState)
        requires
            old(self).wf(),
            animation_state.wf(),
            delta_ms <= crate::animation::TIME_LIMIT,
        ensures
            final(self).wf(),
            AnimatedMenu::updated(*old(self), *final(self), delta_ms, *animation_state),
    {
        proof {
            assert(3 * delta_ms * (EASE_SCALE as int) <= 3 * (crate::animation::TIME_LIMIT as int)
                * 7040) by (nonlinear_arith)
                requires 0 <= delta_ms <= crate::animation::TIME_LIMIT, EASE_SCALE == 7040;
            vstd::arithmetic::div_mod::lemma_div_pos_is_pos(3 * delta_ms * (EASE_SCALE as int), 1000);
            vstd::arithmetic::div_mod::lemma_div_is_ordered(
                3 * delta_ms * (EASE_SCALE as int),
                3 * (crate::animation::TIME_LIMIT as int) * 7040,
                1000,
            );
        }
        let step = 3 * (delta_ms as i64) * EASE_SCALE / 1000;
        self.entrance_animation = if self.entrance_animation + step >= EASE_SCALE {
            EASE_SCALE
        } else {
            self.entrance_animation + step
        };
        self.highlight_animation = (self.highlight_animation + 2 * delta_ms) % PULSE_WRAP;
        let target = animation_state.menu_highlight.value();
        proof {
            let sel = old(self).selected as int;
            assert(0 <= sel * (EASE_SCALE as int) <= (MENU_LIMIT as int) * 7040)
                by (nonlinear_arith)
                requires
                    0 <= sel <= MENU_LIMIT as int,
                    EASE_SCALE == 7040;
        }
        let sel_scaled = (self.selected as i64) * EASE_SCALE;
        if target >= sel_scaled {
            let diff = target - sel_scaled;
            self.animation_offset = diff / 10;
            proof {
                vstd::arithmetic::div_mod::lemma_div_pos_is_pos(diff as int, 10);
            }
        }
    }

    /// Restart the entrance slide from the beginning.
    pub fn trigger_entrance(&mut self)
        requires
            old(self).wf(),
        ensures
            final(self).wf(),
            *final(self) == (AnimatedMenu { entrance_animation: 0, ..*old(self) }),
    {
        self.entrance_animation = 0;
    }
}

pub open spec fn min_64(a: int, b: int) -> int {
    if a <= b {
        a
    } else {
        b
    }
}

/// Assembles an [`AnimatedMenu`] item by item.
#[derive(Debug)]
pub struct MenuBuilder {
    pub items: Vec<MenuItem>,
    pub title: Option<String>,
    pub show_help: bool,
    pub show_borders: bool,
}

impl MenuBuilder {
    pub fn new() -> (r: MenuBuilder)
        ensures
            r.items@.len() == 0,
            r.title is None,
            r.show_help,
            r.show_borders,
    {
        MenuBuilder { items: Vec::new(), title: None, show_help: true, show_borders: true }
    }

    pub fn title(self, title: &str) -> (r: MenuBuilder)
        ensures
            r.items == self.items,
            r.title matches Some(t) && t@ == title@,
            r.show_help == self.show_help,
            r.show_borders == self.show_borders,
    {
        MenuBuilder { title: Some(title.to_owned()), ..self }
    }

    pub fn item(self, item: MenuItem) -> (r: MenuBuilder)
        requires
            self.items@.len() < MENU_LIMIT,
        ensures
            r.items@ == self.items@.push(item),
            r.title == self.title,
            r.show_help == self.show_help,
            r.show_borders == self.show_borders,
    {
        let mut items = self.items;
        items.push(item);
        MenuBuilder { items, ..self }
    }

    /// Add a row with a bare title.
    pub fn simple_item(self, title: &str) -> (r: MenuBuilder)
        requires
            self.items@.len() < MENU_LIMIT,
        ensures
            r.items@.len() == self.items@.len() + 1,
            r.items@.last().title@ == title@,
            r.items@.last().enabled,
            r.items@.last().description is None,
            r.items@.last().icon is None,
            r.items@.last().hotkey is None,
            forall|i: int| 0 <= i < self.items@.len() ==> r.items@[i] == self.items@[i],
            r.title == self.title,
            r.show_help == self.show_help,
            r.show_borders == self.show_borders,
    {
        self.item(MenuItem::new(title))
    }

    /// Add a row with a title and a description.
    pub fn item_with_desc(self, title: &str, desc: &str) -> (r: MenuBuilder)
        requires
            self.items@.len() < MENU_LIMIT,
        ensures
            r.items@.len() == self.items@.len() + 1,
            r.items@.last().title@ == title@,
            r.items@.last().description matches Some(d) && d@ == desc@,
            r.items@.last().enabled,
            r.items@.last().icon is None,
            r.items@.last().hotkey is None,
            forall|i: int| 0 <= i < self.items@.len() ==> r.items@[i] == self.items@[i],
            r.title == self.title,
            r.show_help == self.show_help,
            r.show_borders == self.show_borders,
    {
        self.item(MenuItem::new(title).with_description(desc))
    }

    /// Add a disabled horizontal rule.
    pub fn separator(self) -> (r: MenuBuilder)
        requires
            self.items@.len() < MENU_LIMIT,
        ensures
            r.items@.len() == self.items@.len() + 1,
            !r.items@.last().enabled,
            forall|i: int| 0 <= i < self.items@.len() ==> r.items@[i] == self.items@[i],
            r.title == self.title,
            r.show_help == self.show_help,
            r.show_borders == self.show_borders,
    {
        self.item(MenuItem::new("--------------------").disabled())
    }

    pub fn show_help(self, show: bool) -> (r: MenuBuilder)
        ensures
            r == (MenuBuilder { show_help: show, ..self }),
    {
        MenuBuilder { show_help: show, ..self }
    }

    pub fn show_borders(self, show: bool) -> (r: MenuBuilder)
        ensures
            r == (MenuBuilder { show_borders: show, ..self }),
    {
        MenuBuilder { show_borders: show, ..self }
    }

    pub fn build(self) -> (r: AnimatedMenu)
        requires
            self.items@.len() <= MENU_LIMIT,
        ensures
            r.wf(),
            r.items == self.items,
            r.selected == 0,
            r.title == self.title,
            r.show_help == self.show_help,
            r.show_borders == self.show_borders,
            r.entrance_animation == 0,
    {
        AnimatedMenu {
            items: self.items,
            selected: 0,
            title: self.title,
            show_help: self.show_help,
            show_borders: self.show_borders,
            animation_offset: 0,
            highlight_animation: 0,
            entrance_animation: 0,
        }
    }
}

/// The ready-made menus of the fixed views.
pub struct MenuPresets;

impl MenuPresets {
    /// The top-level menu: manage classes, create a class, a rule,
    /// settings, quit.
    pub fn main_menu() -> (r: AnimatedMenu)
        ensures
            r.wf(),
            r.items@.len() == 5,
            r.selected == 0,
            r.items@[0].title@ == "Manage Classes"@ && r.items@[0].enabled,
            r.items@[1].title@ == "Create Class"@ && r.items@[1].enabled,
            !r.items@[2].enabled,
            r.items@[3].title@ == "Settings"@ && r.items@[3].enabled,
            r.items@[4].title@ == "Quit"@ && r.items@[4].enabled,
    {
        MenuBuilder::new().title("Student Code Viewer").item(
            MenuItem::new("Manage Classes").with_description(
                "Select and manage an existing class",
            ).with_hotkey('m'),
        ).item(
            MenuItem::new("Create Class").with_description("Create a new class").with_hotkey('c'),
        ).separator().item(
            MenuItem::new("Settings").with_description("Configure application settings")
                .with_hotkey('s'),
        ).item(
            MenuItem::new("Quit").with_description("Exit the application").with_hotkey('q'),
        ).build()
    }

    /// The menu shown while managing one class.
    pub fn class_management(class_name: &str) -> (r: AnimatedMenu)
        ensures
            r.wf(),
            r.items@.len() == 6,
            r.selected == 0,
            r.items@[0].title@ == "Manage Students"@ && r.items@[0].enabled,
            r.items@[1].title@ == "Manage Repositories"@ && r.items@[1].enabled,
            r.items@[2].title@ == "View GitHub Activity"@ && r.items@[2].enabled,
            !r.items@[3].enabled,
            r.items@[4].title@ == "Delete Class"@ && r.items@[4].enabled,
            r.items@[5].title@ == "Back"@ && r.items@[5].enabled,
    {
        MenuBuilder::new().title(class_name).item(
            MenuItem::new("Manage Students").with_description("Add or remove students")
                .with_hotkey('s'),
        ).item(
            MenuItem::new("Manage Repositories").with_description(
                "Clone, pull, or clean repositories",
            ).with_hotkey('r'),
        ).item(
            MenuItem::new("View GitHub Activity").with_description(
                "Check student GitHub activity",
            ).with_hotkey('a'),
        ).separator().item(
            MenuItem::new("Delete Class").with_description("Delete this class and its data")
                .with_hotkey('d'),
        ).item(
            MenuItem::new("Back").with_description("Return to main menu").with_hotkey('b'),
        ).build()
    }

    /// The menu shown while managing one class's students.
    pub fn student_management(class_name: &str) -> (r: AnimatedMenu)
        ensures
            r.wf(),
            r.items@.len() == 5,
            r.selected == 0,
            r.items@[0].title@ == "Add Students"@ && r.items@[0].enabled,
            r.items@[1].title@ == "Remove Student"@ && r.items@[1].enabled,
            r.items@[2].title@ == "View Student List"@ && r.items@[2].enabled,
            !r.items@[3].enabled,
            r.items@[4].title@ == "Back"@ && r.items@[4].enabled,
    {
        MenuBuilder::new().title(class_name).item(
            MenuItem::new("Add Students").with_description("Add new students to this class")
                .with_hotkey('a'),
        ).item(
            MenuItem::new("Remove Student").with_description(
                "Remove a student from this class",
            ).with_hotkey('r'),
        ).item(
            MenuItem::new("View Student List").with_description(
                "View all students in this class",
            ).with_hotkey('v'),
        ).separator().item(
            MenuItem::new("Back").with_description("Return to class management").with_hotkey('b'),
        ).build()
    }

    /// The menu of batch repository operations.
    pub fn repository_management(class_name: &str) -> (r: AnimatedMenu)
        ensures
            r.wf(),
            r.items@.len() == 5,
            r.selected == 0,
            r.items@[0].title@ == "Clone All Repos"@ && r.items@[0].enabled,
            r.items@[1].title@ == "Pull All Repos"@ && r.items@[1].enabled,
            r.items@[2].title@ == "Clean All Repos"@ && r.items@[2].enabled,
            !r.items@[3].enabled,
            r.items@[4].title@ == "Back"@ && r.items@[4].enabled,
    {
        MenuBuilder::new().title(class_name).item(
            MenuItem::new("Clone All Repos").with_description("Clone all student repositories")
                .with_hotkey('c'),
        ).item(
            MenuItem::new("Pull All Repos").with_description(
                "Pull updates for all repositories",
            ).with_hotkey('p'),
        ).item(
            MenuItem::new("Clean All Repos").with_description(
                "Remove all cloned repositories",
            ).with_hotkey('x'),
        ).separator().item(
            MenuItem::new("Back").with_description("Return to class management").with_hotkey('b'),
        ).build()
    }

    /// The menu of the activity views.
    pub fn github_activity(class_name: &str) -> (r: AnimatedMenu)
        ensures
            r.wf(),
            r.items@.len() == 5,
            r.selected == 0,
            r.items@[0].title@ == "Week View"@ && r.items@[0].enabled,
            r.items@[1].title@ == "Latest Activity"@ && r.items@[1].enabled,
            r.items@[2].title@ == "Activity Heatmap"@ && r.items@[2].enabled,
            !r.items@[3].enabled,
            r.items@[4].title@ == "Back"@ && r.items@[4].enabled,
    {
        MenuBuilder::new().title(class_name).item(
            MenuItem::new("Week View").with_description("View activity for the past week")
                .with_hotkey('w'),
        ).item(
            MenuItem::new("Latest Activity").with_description("Check latest commit times")
                .with_hotkey('l'),
        ).item(
            MenuItem::new("Activity Heatmap").with_description("View contribution heatmap")
                .with_hotkey('h'),
        ).separator().item(
            MenuItem::new("Back").with_description("Return to class management").with_hotkey('b'),
        ).build()
    }
}


/// How far one menu row still sits off to the left mid-entrance: rows
/// stagger by a tenth of the slide each, catch up at double speed, and
/// start ten cells out.
pub open spec fn entrance_slide_spec(entrance: int, index: int) -> int {
    let delayed = (entrance - index * (EASE_SCALE as int) / 10) * 2;
    let p = if delayed < 0 {
        0
    } else if delayed > EASE_SCALE {
        EASE_SCALE as int
    } else {
        delayed
    };
    (EASE_SCALE - p) * 10 / (EASE_SCALE as int)
}

/// The entrance slide offset of one row, in cells.
pub fn entrance_slide_offset(entrance_progress: i64, index: usize) -> (r: u16)
    requires
        0 <= entrance_progress <= EASE_SCALE,
        index <= MENU_LIMIT,
    ensures
        r == entrance_slide_spec(entrance_progress as int, index as int),
        r <= 10,
{
    proof {
        let ix = index as int;
        let si = EASE_SCALE as int;
        assert(0 <= ix * si && ix * si <= (MENU_LIMIT as int) * si && (MENU_LIMIT as int) * si
            == si * (MENU_LIMIT as int)) by (nonlinear_arith)
            requires 0 <= ix <= MENU_LIMIT as int, 0 < si;
        vstd::arithmetic::div_mod::lemma_div_pos_is_pos(ix * si, 10);
        vstd::arithmetic::div_mod::lemma_div_is_ordered(ix * si, si * (MENU_LIMIT as int), 10);
    }
    let staggered = (index as i64) * EASE_SCALE / 10;
    let delayed = (entrance_progress - staggered) * 2;
    let p = if delayed < 0 {
        0
    } else if delayed > EASE_SCALE {
        EASE_SCALE
    } else {
        delayed
    };
    proof {
        let pi = p as int;
        let si = EASE_SCALE as int;
        assert(0 <= (si - pi) * 10 && (si - pi) * 10 <= si * 10) by (nonlinear_arith)
            requires 0 <= pi <= si;
        vstd::arithmetic::div_mod::lemma_div_pos_is_pos((si - pi) * 10, si);
        vstd::arithmetic::div_mod::lemma_div_is_ordered((si - pi) * 10, si * 10, si);
        assert(si * 10 == 10 * si) by (nonlinear_arith);
        vstd::arithmetic::div_mod::lemma_div_multiples_vanish(10, si);
    }
    ((EASE_SCALE - p) * 10 / EASE_SCALE) as u16
}

} // verus!
