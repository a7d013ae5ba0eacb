//! The concrete screens: one model per view, each turning key presses
//! into at most one high-level event, plus the factory that builds a
//! screen from its identity.
//!
//! Drawing is the terminal layer's job; a screen model holds only the
//! state drawing reads and key handling mutates.

use vstd::prelude::*;
use crate::events::AppEvent;
use crate::input::AnimatedInput;
use crate::keys::{KeyCode, KeyInput};
use crate::menu::{AnimatedMenu, MenuBuilder, MenuItem, MenuPresets, MENU_LIMIT};
use crate::models::{Class, Student};
use crate::screen::{ScreenContext, ScreenType, ScreenTypeVariant};
use crate::strutil::{parse_names_spec, parse_student_names, str_eq, trim_spec};

verus! {

/// A plain menu row used by the list-style screens.
#[derive(Debug)]
pub struct MenuOption {
    pub title: String,
    pub description: String,
    pub action: String,
}

impl MenuOption {
    pub fn new(title: &str, description: &str, action: &str) -> (r: MenuOption)
        ensures
            r.title@ == title@,
            r.description@ == description@,
            r.action@ == action@,
    {
        MenuOption {
            title: title.to_owned(),
            description: description.to_owned(),
            action: action.to_owned(),
        }
    }
}

/// The event the main menu fires when its selected row is chosen.
pub open spec fn main_menu_enter_spec(m: AnimatedMenu) -> Option<AppEvent> {
    if m.items@.len() == 0 {
        None
    } else {
        let t = m.items@[m.selected as int].title@;
        if t == "Manage Classes"@ {
            Some(
                AppEvent::NavigateToScreen(
                    ScreenType { variant: ScreenTypeVariant::ClassSelection, context: None },
                ),
            )
        } else if t == "Create Class"@ {
            Some(
                AppEvent::NavigateToScreen(
                    ScreenType { variant: ScreenTypeVariant::CreateClass, context: None },
                ),
            )
        } else if t == "Settings"@ {
            Some(
                AppEvent::NavigateToScreen(
                    ScreenType { variant: ScreenTypeVariant::Settings, context: None },
                ),
            )
        } else if t == "Quit"@ {
            Some(AppEvent::Quit)
        } else {
            None
        }
    }
}

/// The top-level menu screen.
#[derive(Debug)]
pub struct MainMenuScreen {
    pub menu: AnimatedMenu,
}

impl MainMenuScreen {
    pub open spec fn wf(self) -> bool {
        self.menu.wf()
    }

    pub fn new() -> (r: MainMenuScreen)
        ensures
            r.wf(),
            r.menu.items@.len() == 5,
            r.menu.selected == 0,
            r.menu.entrance_animation == 0,
    {
        let mut menu = MenuPresets::main_menu();
        menu.trigger_entrance();
        MainMenuScreen { menu }
    }

    /// React to one key: arrows and `j`/`k` move the selection, enter or
    /// space fires the selected row's action, and `m`, `c`, `s`, `q` jump
    /// straight to their rows' actions.
    /// How one key press steps this screen and which event it fires;
    /// [`Self::handle_key`] ensures exactly this relation.
    pub open spec fn key_rel(pre: MainMenuScreen, key: KeyInput, post: MainMenuScreen, r: Option<AppEvent>) -> bool {
        &&& (post.menu.items == pre.menu.items)
        &&& ((key.code is Up || key.code == KeyCode::Char('k') || key.code is Down || key.code
                        == KeyCode::Char('j')) ==> r is None)
        &&& ((key.code is Enter || key.code == KeyCode::Char(' ')) ==> r == main_menu_enter_spec(
                        pre.menu,
                    ) && post.menu.selected == pre.menu.selected)
        &&& (key.code == KeyCode::Char('m') ==> r == Some(
                        AppEvent::NavigateToScreen(
                            ScreenType { variant: ScreenTypeVariant::ClassSelection, context: None },
                        ),
                    ))
        &&& (key.code == KeyCode::Char('c') ==> r == Some(
                        AppEvent::NavigateToScreen(
                            ScreenType { variant: ScreenTypeVariant::CreateClass, context: None },
                        ),
                    ))
        &&& (key.code == KeyCode::Char('s') ==> r == Some(
                        AppEvent::NavigateToScreen(
                            ScreenType { variant: ScreenTypeVariant::Settings, context: None },
                        ),
                    ))
        &&& (key.code == KeyCode::Char('q') ==> r == Some(AppEvent::Quit))
    }

    pub fn handle_key(&mut self, key: KeyInput) -> (r: Option<AppEvent>)
        requires
            old(self).wf(),
        ensures
            final(self).wf(),
            MainMenuScreen::key_rel(*old(self), key, *final(self), r),
    {
        match key.code {
            KeyCode::Up => {
                self.menu.select_previous();
                None
            },
            KeyCode::Down => {
                self.menu.select_next();
                None
            },
            KeyCode::Enter => menu_enter_event(&self.menu),
            KeyCode::Char(c) => {
                if c == 'k' {
                    self.menu.select_previous();
                    None
                } else if c == 'j' {
                    self.menu.select_next();
                    None
                } else if c == ' ' {
                    menu_enter_event(&self.menu)
                } else if c == 'm' {
                    Some(
                        AppEvent::NavigateToScreen(ScreenType::new(ScreenTypeVariant::ClassSelection)),
                    )
                } else if c == 'c' {
                    Some(AppEvent::NavigateToScreen(ScreenType::new(ScreenTypeVariant::CreateClass)))
                } else if c == 's' {
                    Some(AppEvent::NavigateToScreen(ScreenType::new(ScreenTypeVariant::Settings)))
                } else if c == 'q' {
                    Some(AppEvent::Quit)
                } else {
                    None
                }
            },
            _ => None,
        }
    }

    /// How one frame delta steps this screen: its menu's animations
    /// advance and nothing else moves. [`Self::update`] ensures exactly
    /// this relation.
    pub open spec fn update_rel(
        pre: MainMenuScreen,
        delta_ms: u64,
        animation_state: crate::animation::AnimationState,
        post: MainMenuScreen,
    ) -> bool {
        crate::menu::AnimatedMenu::updated(pre.menu, post.menu, delta_ms, animation_state)
    }

    /// Advance the menu animations.
    pub fn update(&mut self, delta_ms: u64, animation_state: &crate::animation::AnimationState)
        requires
            old(self).wf(),
            animation_state.wf(),
            delta_ms <= crate::animation::TIME_LIMIT,
        ensures
            final(self).wf(),
            MainMenuScreen::update_rel(*old(self), delta_ms, *animation_state, *final(self)),
    {
        self.menu.update(delta_ms, animation_state);
    }
}

/// The selected row's main-menu action.
fn menu_enter_event(menu: &AnimatedMenu) -> (r: Option<AppEvent>)
    requires
        menu.wf(),
    ensures
        r == main_menu_enter_spec(*menu),
{
    match menu.selected_item() {
        Some(item) => {
            if str_eq(item.title.as_str(), "Manage Classes") {
                Some(AppEvent::NavigateToScreen(ScreenType::new(ScreenTypeVariant::ClassSelection)))
            } else if str_eq(item.title.as_str(), "Create Class") {
                Some(AppEvent::NavigateToScreen(ScreenType::new(ScreenTypeVariant::CreateClass)))
            } else if str_eq(item.title.as_str(), "Settings") {
                Some(AppEvent::NavigateToScreen(ScreenType::new(ScreenTypeVariant::Settings)))
            } else if str_eq(item.title.as_str(), "Quit") {
                Some(AppEvent::Quit)
            } else {
                None
            }
        },
        None => None,
    }
}

/// What the class list's menu must look like for a given set of classes:
/// an empty set shows an explanatory row rather than a bare list, a
/// non-empty set shows one row per class in order, and either way the
/// rows for creating a class and going back follow.
pub open spec fn class_menu_ok(classes: Seq<Class>, menu: AnimatedMenu) -> bool {
    if classes.len() == 0 {
        &&& menu.items@.len() == 3
        &&& menu.items@[0].title@ == "No classes found"@
        &&& menu.items@[1].title@ == "Create New Class"@
        &&& menu.items@[2].title@ == "Back"@
    } else {
        &&& menu.items@.len() == classes.len() + 2
        &&& (forall|i: int| 0 <= i < classes.len() ==> menu.items@[i].title@ == classes[i].name@)
        &&& menu.items@[classes.len() as int].title@ == "Create New Class"@
        &&& menu.items@[classes.len() as int + 1].title@ == "Back"@
    }
}

/// The class list: pick a class to manage, or create one.
#[derive(Debug)]
pub struct ClassSelectionScreen {
    pub classes: Vec<Class>,
    pub menu: AnimatedMenu,
    pub loading: bool,
    pub needs_refresh: bool,
    pub error: Option<String>,
}

impl ClassSelectionScreen {
    pub open spec fn wf(self) -> bool {
        &&& self.menu.wf()
        &&& self.classes@.len() + 2 <= MENU_LIMIT
    }

    /// Starts out loading; the real list arrives with the first refresh.
    pub fn new() -> (r: ClassSelectionScreen)
        ensures
            r.wf(),
            r.classes@.len() == 0,
            r.loading,
            r.needs_refresh,
            r.error is None,
    {
        let menu = MenuBuilder::new().title("Select a Class").simple_item("Loading...").build();
        ClassSelectionScreen {
            classes: Vec::new(),
            menu,
            loading: true,
            needs_refresh: true,
            error: None,
        }
    }

    pub fn needs_refresh(&self) -> (r: bool)
        ensures
            r == self.needs_refresh,
    {
        self.needs_refresh
    }

    /// Install a freshly loaded class list and rebuild the menu for it.
    pub fn set_classes(&mut self, classes: Vec<Class>)
        requires
            old(self).wf(),
            classes@.len() + 2 <= MENU_LIMIT,
        ensures
            final(self).wf(),
            final(self).classes == classes,
            class_menu_ok(classes@, final(self).menu),
            final(self).menu.selected == 0,
            !final(self).loading,
            !final(self).needs_refresh,
            final(self).error is None,
    {
        let menu = build_class_menu(&classes);
        self.classes = classes;
        self.menu = menu;
        self.menu.trigger_entrance();
        self.loading = false;
        self.needs_refresh = false;
        self.error = None;
    }

    /// Record that loading the list failed.
    pub fn set_error(&mut self, error: String)
        ensures
            final(self).error == Some(error),
            !final(self).loading,
            !final(self).needs_refresh,
            final(self).classes == old(self).classes,
            final(self).menu == old(self).menu,
    {
        self.error = Some(error);
        self.loading = false;
        self.needs_refresh = false;
    }

    /// React to one key. Choosing a class row selects that class; enter
    /// with no classes at all offers to create the first one, and the
    /// `n` hotkey leads to the create-class screen from any state.
    /// How one key press steps this screen and which event it fires;
    /// [`Self::handle_key`] ensures exactly this relation.
    pub open spec fn key_rel(pre: ClassSelectionScreen, key: KeyInput, post: ClassSelectionScreen, r: Option<AppEvent>) -> bool {
        &&& (post.classes == pre.classes)
        &&& (key.code == KeyCode::Char('q') && key.ctrl ==> r == Some(AppEvent::Quit))
        &&& (!(key.code == KeyCode::Char('q') && key.ctrl) ==> {
                        &&& (key.code is Up || key.code == KeyCode::Char('k') || key.code is Down
                            || key.code == KeyCode::Char('j')) ==> r is None
                        &&& (key.code is Enter || key.code == KeyCode::Char(' ')) ==> r == (
                        if pre.classes@.len() == 0 {
                            Some(
                                AppEvent::NavigateToScreen(
                                    ScreenType { variant: ScreenTypeVariant::CreateClass, context: None },
                                ),
                            )
                        } else if pre.menu.selected < pre.classes@.len() {
                            Some(AppEvent::SelectClass(pre.classes@[pre.menu.selected as int]))
                        } else {
                            None
                        })
                        &&& key.code == KeyCode::Char('n') ==> r == Some(
                            AppEvent::NavigateToScreen(
                                ScreenType { variant: ScreenTypeVariant::CreateClass, context: None },
                            ),
                        )
                        &&& key.code == KeyCode::Char('r') ==> r == Some(AppEvent::RefreshData)
                        &&& key.code is Esc ==> r == Some(
                            AppEvent::NavigateToScreen(
                                ScreenType { variant: ScreenTypeVariant::MainMenu, context: None },
                            ),
                        )
                    })
    }

    pub fn handle_key(&mut self, key: KeyInput) -> (r: Option<AppEvent>)
        requires
            old(self).wf(),
        ensures
            final(self).wf(),
            ClassSelectionScreen::key_rel(*old(self), key, *final(self), r),
    {
        if key.ctrl {
            if let KeyCode::Char(c) = key.code {
                if c == 'q' {
                    return Some(AppEvent::Quit);
                }
            }
        }
        match key.code {
            KeyCode::Down => {
                self.menu.select_next();
                None
            },
            KeyCode::Up => {
                self.menu.select_previous();
                None
            },
            KeyCode::Enter => self.enter_event(),
            KeyCode::Esc => Some(AppEvent::NavigateToScreen(ScreenType::new(ScreenTypeVariant::MainMenu))),
            KeyCode::Char(c) => {
                if c == 'j' {
                    self.menu.select_next();
                    None
                } else if c == 'k' {
                    self.menu.select_previous();
                    None
                } else if c == ' ' {
                    self.enter_event()
                } else if c == 'n' {
                    Some(AppEvent::NavigateToScreen(ScreenType::new(ScreenTypeVariant::CreateClass)))
                } else if c == 'r' {
                    Some(AppEvent::RefreshData)
                } else {
                    None
                }
            },
            _ => None,
        }
    }

    fn enter_event(&self) -> (r: Option<AppEvent>)
        requires
            self.wf(),
        ensures
            r == (if self.classes@.len() == 0 {
                Some(
                    AppEvent::NavigateToScreen(
                        ScreenType { variant: ScreenTypeVariant::CreateClass, context: None },
                    ),
                )
            } else if self.menu.selected < self.classes@.len() {
                Some(AppEvent::SelectClass(self.classes@[self.menu.selected as int]))
            } else {
                None
            }),
    {
        if self.classes.len() == 0 {
            Some(AppEvent::NavigateToScreen(ScreenType::new(ScreenTypeVariant::CreateClass)))
        } else if self.menu.selected_index() < self.classes.len() {
            let class = self.classes[self.menu.selected_index()].clone();
            Some(AppEvent::SelectClass(class))
        } else {
            None
        }
    }

    /// How one frame delta steps this screen: its menu's animations
    /// advance and nothing else moves. [`Self::update`] ensures exactly
    /// this relation.
    pub open spec fn update_rel(
        pre: ClassSelectionScreen,
        delta_ms: u64,
        animation_state: crate::animation::AnimationState,
        post: ClassSelectionScreen,
    ) -> bool {
        &&& crate::menu::AnimatedMenu::updated(pre.menu, post.menu, delta_ms, animation_state)
        &&& post.classes == pre.classes
        &&& post.loading == pre.loading
        &&& post.needs_refresh == pre.needs_refresh
        &&& post.error == pre.error
    }

    /// Advance the menu animations.
    pub fn update(&mut self, delta_ms: u64, animation_state: &crate::animation::AnimationState)
        requires
            old(self).wf(),
            animation_state.wf(),
            delta_ms <= crate::animation::TIME_LIMIT,
        ensures
            final(self).wf(),
            ClassSelectionScreen::update_rel(*old(self), delta_ms, *animation_state, *final(self)),
    {
        self.menu.update(delta_ms, animation_state);
    }
}

/// Build the class list's menu; see [`class_menu_ok`] for its shape.
fn build_class_menu(classes: &Vec<Class>) -> (r: AnimatedMenu)
    requires
        classes@.len() + 2 <= MENU_LIMIT,
    ensures
        r.wf(),
        class_menu_ok(classes@, r),
        r.selected == 0,
{
    let mut builder = MenuBuilder::new().title("Select a Class");
    if classes.len() == 0 {
        builder = builder.item(
            MenuItem::new("No classes found").with_description(
                "Press 'n' to create your first class",
            ),
        );
    } else {
        let mut i: usize = 0;
        while i < classes.len()
            invariant
                i <= classes@.len(),
                classes@.len() + 2 <= MENU_LIMIT,
                builder.items@.len() == i,
                forall|j: int| 0 <= j < i ==> builder.items@[j].title@ == classes@[j].name@,
            decreases classes@.len() - i,
        {
            builder = builder.item(
                MenuItem::new(classes[i].name.as_str()).with_description("Manage this class"),
            );
            i = i + 1;
        }
    }
    builder = builder.item(
        MenuItem::new("Create New Class").with_description("Add a new class").with_hotkey('c'),
    );
    builder = builder.item(
        MenuItem::new("Back").with_description("Return to main menu").with_hotkey('b'),
    );
    builder.build()
}

/// The create-class form: a single name field.
#[derive(Debug)]
pub struct CreateClassScreen {
    pub input: AnimatedInput,
    pub error: Option<String>,
    pub creating: bool,
}

impl CreateClassScreen {
    pub open spec fn wf(self) -> bool {
        self.input.wf()
    }

    pub fn new() -> (r: CreateClassScreen)
        ensures
            r.wf(),
            r.input.buffer@.len() == 0,
            r.input.focused,
            r.error is None,
            !r.creating,
    {
        let mut input = AnimatedInput::new("Class Name");
        input.focus();
        CreateClassScreen { input, error: None, creating: false }
    }

    /// React to one key. While a creation is in flight every key is
    /// swallowed. Enter submits the trimmed name — an empty one is
    /// rejected inline with a message and never reaches the controller —
    /// and escape goes back; anything else edits the field.
    /// How one key press steps this screen and which event it fires;
    /// [`Self::handle_key`] ensures exactly this relation.
    pub open spec fn key_rel(pre: CreateClassScreen, key: KeyInput, post: CreateClassScreen, r: Option<AppEvent>) -> bool {
        &&& (pre.creating ==> r is None && post == pre)
        &&& (!pre.creating ==> {
                        &&& key.code is Esc ==> r == Some(AppEvent::GoBack)
                        &&& key.code is Enter && trim_spec(pre.input.buffer@).len() == 0 ==> (r
                            is None && post.error is Some && !post.creating)
                        &&& key.code is Enter && trim_spec(pre.input.buffer@).len() > 0 ==> {
                            &&& r matches Some(AppEvent::ClassCreated(c)) && c.name@ == trim_spec(
                                pre.input.buffer@,
                            ) && c.id == 0 && c.created_at == 0
                            &&& post.creating
                            &&& post.error is None
                        }
                    })
    }

    pub fn handle_key(&mut self, key: KeyInput) -> (r: Option<AppEvent>)
        requires
            old(self).wf(),
        ensures
            final(self).wf(),
            CreateClassScreen::key_rel(*old(self), key, *final(self), r),
    {
        if self.creating {
            return None;
        }
        match key.code {
            KeyCode::Esc => Some(AppEvent::GoBack),
            KeyCode::Enter => {
                let trimmed = crate::strutil::trim_chars(self.input.chars());
                if trimmed.len() == 0 {
                    self.error = Some("Class name cannot be empty".to_owned());
                    None
                } else {
                    self.creating = true;
                    self.error = None;
                    let name = crate::strutil::chars_to_string(&trimmed);
                    Some(AppEvent::ClassCreated(Class::new(name)))
                }
            },
            _ => {
                self.input.handle_key_event(key);
                self.error = None;
                None
            },
        }
    }

    /// How one frame delta steps this screen: its field's cursor blink
    /// turns and nothing else moves. [`Self::update`] ensures exactly
    /// this relation.
    pub open spec fn update_rel(pre: CreateClassScreen, delta_ms: u64, post: CreateClassScreen) -> bool {
        &&& AnimatedInput::updated(pre.input, post.input, delta_ms)
        &&& post.error == pre.error
        &&& post.creating == pre.creating
    }

    /// Advance the cursor blink.
    pub fn update(&mut self, delta_ms: u64)
        requires
            old(self).wf(),
            delta_ms <= crate::animation::TIME_LIMIT,
        ensures
            final(self).wf(),
            CreateClassScreen::update_rel(*old(self), delta_ms, *final(self)),
    {
        self.input.update(delta_ms);
    }
}

/// The menu shown while managing one class.
#[derive(Debug)]
pub struct ClassManagementScreen {
    pub class: Class,
    pub selected: usize,
    pub menu_options: Vec<MenuOption>,
}

/// How choosing the selected class-management row relates to the event
/// it fires, by row: students, repositories (not implemented yet),
/// activity, delete (not implemented yet), back.
pub open spec fn class_management_enter_ok(
    s: ClassManagementScreen,
    r: Option<AppEvent>,
) -> bool {
    match s.selected {
        0 => r == Some(
            AppEvent::NavigateToScreen(
                ScreenType {
                    variant: ScreenTypeVariant::StudentManagement,
                    context: Some(ScreenContext::Class(s.class)),
                },
            ),
        ),
        1 => r matches Some(AppEvent::ShowError(m)) && m@
            == "Repository management not implemented yet"@,
        2 => r == Some(
            AppEvent::NavigateToScreen(
                ScreenType {
                    variant: ScreenTypeVariant::GitHubActivity,
                    context: Some(ScreenContext::Class(s.class)),
                },
            ),
        ),
        3 => r matches Some(AppEvent::ShowError(m)) && m@
            == "Delete class not implemented yet"@,
        _ => r == Some(AppEvent::GoBack),
    }
}

impl ClassManagementScreen {
    pub open spec fn wf(self) -> bool {
        &&& self.menu_options@.len() == 5
        &&& self.selected < 5
    }

    pub fn new(class: Class) -> (r: ClassManagementScreen)
        ensures
            r.wf(),
            r.class == class,
            r.selected == 0,
    {
        let mut menu_options: Vec<MenuOption> = Vec::new();
        menu_options.push(MenuOption::new("Manage Students", "Add or remove students", "students"));
        menu_options.push(
            MenuOption::new("Manage Repositories", "Clone, pull, or clean repositories", "repos"),
        );
        menu_options.push(
            MenuOption::new("View GitHub Activity", "Check student GitHub activity", "activity"),
        );
        menu_options.push(
            MenuOption::new("Delete Class", "Delete this class and its data", "delete"),
        );
        menu_options.push(MenuOption::new("Back", "Return to main menu", "back"));
        ClassManagementScreen { class, selected: 0, menu_options }
    }

    /// React to one key: arrows and `j`/`k` move the selection with
    /// wrap-around, enter or space fires the selected row, the hotkeys
    /// jump straight to their rows, and `b` or escape goes back.
    /// How one key press steps this screen and which event it fires;
    /// [`Self::handle_key`] ensures exactly this relation.
    pub open spec fn key_rel(pre: ClassManagementScreen, key: KeyInput, post: ClassManagementScreen, r: Option<AppEvent>) -> bool {
        &&& (post.class == pre.class)
        &&& (key.code is Up || key.code == KeyCode::Char('k') ==> r is None && post.selected
                        == (if pre.selected == 0 {
                        4int
                    } else {
                        pre.selected - 1
                    }))
        &&& (key.code is Down || key.code == KeyCode::Char('j') ==> r is None && post.selected == (pre.selected + 1) as int % 5)
        &&& (key.code is Enter || key.code == KeyCode::Char(' ') ==> class_management_enter_ok(
                        pre,
                        r,
                    ))
        &&& (key.code == KeyCode::Char('s') ==> r == Some(
                        AppEvent::NavigateToScreen(
                            ScreenType {
                                variant: ScreenTypeVariant::StudentManagement,
                                context: Some(ScreenContext::Class(pre.class)),
                            },
                        ),
                    ))
        &&& (key.code == KeyCode::Char('a') ==> r == Some(
                        AppEvent::NavigateToScreen(
                            ScreenType {
                                variant: ScreenTypeVariant::GitHubActivity,
                                context: Some(ScreenContext::Class(pre.class)),
                            },
                        ),
                    ))
        &&& (key.code == KeyCode::Char('b') || key.code is Esc ==> r == Some(AppEvent::GoBack))
    }

    pub fn handle_key(&mut self, key: KeyInput) -> (r: Option<AppEvent>)
        requires
            old(self).wf(),
        ensures
            final(self).wf(),
            ClassManagementScreen::key_rel(*old(self), key, *final(self), r),
    {
        match key.code {
            KeyCode::Up => {
                self.select_previous();
                None
            },
            KeyCode::Down => {
                self.select_next();
                None
            },
            KeyCode::Enter => self.enter_event(),
            KeyCode::Esc => Some(AppEvent::GoBack),
            KeyCode::Char(c) => {
                if c == 'k' {
                    self.select_previous();
                    None
                } else if c == 'j' {
                    self.select_next();
                    None
                } else if c == ' ' {
                    self.enter_event()
                } else if c == 's' {
                    Some(
                        AppEvent::NavigateToScreen(
                            ScreenType::new(ScreenTypeVariant::StudentManagement).with_context(
                                ScreenContext::Class(self.class.clone()),
                            ),
                        ),
                    )
                } else if c == 'r' {
                    Some(AppEvent::ShowError("Repository management not implemented yet".to_owned()))
                } else if c == 'a' {
                    Some(
                        AppEvent::NavigateToScreen(
                            ScreenType::new(ScreenTypeVariant::GitHubActivity).with_context(
                                ScreenContext::Class(self.class.clone()),
                            ),
                        ),
                    )
                } else if c == 'd' {
                    Some(AppEvent::ShowError("Delete class not implemented yet".to_owned()))
                } else if c == 'b' {
                    Some(AppEvent::GoBack)
                } else {
                    None
                }
            },
            _ => None,
        }
    }

    fn select_next(&mut self)
        requires
            old(self).wf(),
        ensures
            final(self).wf(),
            final(self).selected == (old(self).selected + 1) as int % 5,
            final(self).class == old(self).class,
            final(self).menu_options == old(self).menu_options,
    {
        self.selected = (self.selected + 1) % 5;
    }

    fn select_previous(&mut self)
        requires
            old(self).wf(),
        ensures
            final(self).wf(),
            final(self).selected == (if old(self).selected == 0 {
                4int
            } else {
                old(self).selected - 1
            }),
            final(self).class == old(self).class,
            final(self).menu_options == old(self).menu_options,
    {
        self.selected = if self.selected == 0 {
            4
        } else {
            self.selected - 1
        };
    }

    fn enter_event(&self) -> (r: Option<AppEvent>)
        requires
            self.wf(),
        ensures
            class_management_enter_ok(*self, r),
    {
        if self.selected == 0 {
            Some(
                AppEvent::NavigateToScreen(
                    ScreenType::new(ScreenTypeVariant::StudentManagement).with_context(
                        ScreenContext::Class(self.class.clone()),
                    ),
                ),
            )
        } else if self.selected == 1 {
            Some(AppEvent::ShowError("Repository management not implemented yet".to_owned()))
        } else if self.selected == 2 {
            Some(
                AppEvent::NavigateToScreen(
                    ScreenType::new(ScreenTypeVariant::GitHubActivity).with_context(
                        ScreenContext::Class(self.class.clone()),
                    ),
                ),
            )
        } else if self.selected == 3 {
            Some(AppEvent::ShowError("Delete class not implemented yet".to_owned()))
        } else {
            Some(AppEvent::GoBack)
        }
    }
}

/// The menu shown while managing one class's students.
#[derive(Debug)]
pub struct StudentManagementScreen {
    pub class: Class,
    pub menu_options: Vec<MenuOption>,
    pub selected_index: usize,
}

/// How choosing the selected student-management row relates to the event
/// it fires, by row: add students, delete a student, back.
pub open spec fn student_management_enter_spec(s: StudentManagementScreen) -> Option<AppEvent> {
    match s.selected_index {
        0 => Some(
            AppEvent::NavigateToScreen(
                ScreenType {
                    variant: ScreenTypeVariant::AddStudents,
                    context: Some(ScreenContext::Class(s.class)),
                },
            ),
        ),
        1 => Some(
            AppEvent::NavigateToScreen(
                ScreenType {
                    variant: ScreenTypeVariant::DeleteStudent,
                    context: Some(ScreenContext::Class(s.class)),
                },
            ),
        ),
        _ => Some(AppEvent::GoBack),
    }
}

impl StudentManagementScreen {
    pub open spec fn wf(self) -> bool {
        &&& self.menu_options@.len() == 3
        &&& self.selected_index < 3
    }

    pub fn new(class: Class) -> (r: StudentManagementScreen)
        ensures
            r.wf(),
            r.class == class,
            r.selected_index == 0,
    {
        let mut menu_options: Vec<MenuOption> = Vec::new();
        menu_options.push(
            MenuOption::new("Add Student(s)", "Add new students to this class", "add"),
        );
        menu_options.push(
            MenuOption::new("Delete Student", "Remove a student from this class", "delete"),
        );
        menu_options.push(
            MenuOption::new("Back", "Return to class management menu", "back"),
        );
        StudentManagementScreen { class, menu_options, selected_index: 0 }
    }

    /// React to one key: `j`/`k` and the arrows move the selection with
    /// wrap-around, enter fires the selected row, `q` or escape goes
    /// back.
    /// How one key press steps this screen and which event it fires;
    /// [`Self::handle_key`] ensures exactly this relation.
    pub open spec fn key_rel(pre: StudentManagementScreen, key: KeyInput, post: StudentManagementScreen, r: Option<AppEvent>) -> bool {
        &&& (post.class == pre.class)
        &&& (key.code == KeyCode::Char('q') || key.code is Esc ==> r == Some(AppEvent::GoBack))
        &&& (key.code is Up || key.code == KeyCode::Char('k') ==> r is None && post.selected_index == (pre.selected_index + 2) as int % 3)
        &&& (key.code is Down || key.code == KeyCode::Char('j') ==> r is None && post.selected_index == (pre.selected_index + 1) as int % 3)
        &&& (key.code is Enter ==> r == student_management_enter_spec(pre))
    }

    pub fn handle_key(&mut self, key: KeyInput) -> (r: Option<AppEvent>)
        requires
            old(self).wf(),
        ensures
            final(self).wf(),
            StudentManagementScreen::key_rel(*old(self), key, *final(self), r),
    {
        match key.code {
            KeyCode::Esc => Some(AppEvent::GoBack),
            KeyCode::Up => {
                self.selected_index = (self.selected_index + 2) % 3;
                None
            },
            KeyCode::Down => {
                self.selected_index = (self.selected_index + 1) % 3;
                None
            },
            KeyCode::Enter => {
                if self.selected_index == 0 {
                    Some(
                        AppEvent::NavigateToScreen(
                            ScreenType::new(ScreenTypeVariant::AddStudents).with_context(
                                ScreenContext::Class(self.class.clone()),
                            ),
                        ),
                    )
                } else if self.selected_index == 1 {
                    Some(
                        AppEvent::NavigateToScreen(
                            ScreenType::new(ScreenTypeVariant::DeleteStudent).with_context(
                                ScreenContext::Class(self.class.clone()),
                            ),
                        ),
                    )
                } else {
                    Some(AppEvent::GoBack)
                }
            },
            KeyCode::Char(c) => {
                if c == 'q' {
                    Some(AppEvent::GoBack)
                } else if c == 'k' {
                    self.selected_index = (self.selected_index + 2) % 3;
                    None
                } else if c == 'j' {
                    self.selected_index = (self.selected_index + 1) % 3;
                    None
                } else {
                    None
                }
            },
            _ => None,
        }
    }
}

/// The add-students form: one comma-separated entry of usernames.
#[derive(Debug)]
pub struct AddStudentsScreen {
    pub class: Class,
    pub input_text: Vec<char>,
}

impl AddStudentsScreen {
    pub open spec fn wf(self) -> bool {
        self.input_text@.len() <= crate::input::INPUT_LIMIT
    }

    pub fn new(class: Class) -> (r: AddStudentsScreen)
        ensures
            r.wf(),
            r.class == class,
            r.input_text@.len() == 0,
    {
        AddStudentsScreen { class, input_text: Vec::new() }
    }

    /// React to one key: characters append to the entry, backspace
    /// deletes, escape goes back, and enter submits the parsed names —
    /// an entry with no names in it submits nothing.
    /// How one key press steps this screen and which event it fires;
    /// [`Self::handle_key`] ensures exactly this relation.
    pub open spec fn key_rel(pre: AddStudentsScreen, key: KeyInput, post: AddStudentsScreen, r: Option<AppEvent>) -> bool {
        &&& (post.class == pre.class)
        &&& (key.code is Esc ==> r == Some(AppEvent::GoBack) && post.input_text == pre.input_text)
        &&& (key.code matches KeyCode::Char(c) ==> r is None && (pre.input_text@.len()
                        < crate::input::INPUT_LIMIT ==> post.input_text@ == pre.input_text@.push(c)))
        &&& (key.code is Backspace ==> r is None && (pre.input_text@.len() > 0 ==> post.input_text@ == pre.input_text@.drop_last()))
        &&& (key.code is Enter && parse_names_spec(pre.input_text@).len() == 0 ==> r is None
                        && post.input_text == pre.input_text)
        &&& (key.code is Enter && parse_names_spec(pre.input_text@).len() > 0 ==> {
                        &&& r matches Some(AppEvent::SubmitStudents { class_id, usernames })
                            && class_id == pre.class.id && usernames@.len() == parse_names_spec(
                            pre.input_text@,
                        ).len() && (forall|j: int| 0 <= j < usernames@.len() ==> usernames@[j]@
                            == parse_names_spec(pre.input_text@)[j])
                        &&& post.input_text@.len() == 0
                    })
    }

    pub fn handle_key(&mut self, key: KeyInput) -> (r: Option<AppEvent>)
        requires
            old(self).wf(),
        ensures
            final(self).wf(),
            AddStudentsScreen::key_rel(*old(self), key, *final(self), r),
    {
        match key.code {
            KeyCode::Esc => Some(AppEvent::GoBack),
            KeyCode::Char(c) => {
                if self.input_text.len() < crate::input::INPUT_LIMIT {
                    self.input_text.push(c);
                }
                None
            },
            KeyCode::Backspace => {
                if self.input_text.len() > 0 {
                    self.input_text.pop();
                }
                None
            },
            KeyCode::Enter => {
                let usernames = parse_student_names(&self.input_text);
                if usernames.len() == 0 {
                    None
                } else {
                    self.input_text = Vec::new();
                    Some(AppEvent::SubmitStudents { class_id: self.class.id, usernames })
                }
            },
            _ => None,
        }
    }
}

/// The delete-student picker: a list of the class's students.
#[derive(Debug)]
pub struct DeleteStudentScreen {
    pub class: Class,
    pub students: Vec<Student>,
    pub selected_index: usize,
}

impl DeleteStudentScreen {
    pub open spec fn wf(self) -> bool {
        &&& (self.students@.len() > 0 ==> self.selected_index < self.students@.len())
        &&& (self.students@.len() == 0 ==> self.selected_index == 0)
        &&& self.students@.len() < 1000000000
    }

    pub fn new(class: Class, students: Vec<Student>) -> (r: DeleteStudentScreen)
        requires
            students@.len() < 1000000000,
        ensures
            r.wf(),
            r.class == class,
            r.students == students,
            r.selected_index == 0,
    {
        DeleteStudentScreen { class, students, selected_index: 0 }
    }

    /// React to one key: `j`/`k` and the arrows move the selection with
    /// wrap-around, enter asks for the selected student's removal, and
    /// escape goes back. With no students, movement and enter do
    /// nothing.
    /// How one key press steps this screen and which event it fires;
    /// [`Self::handle_key`] ensures exactly this relation.
    pub open spec fn key_rel(pre: DeleteStudentScreen, key: KeyInput, post: DeleteStudentScreen, r: Option<AppEvent>) -> bool {
        &&& (post.class == pre.class)
        &&& (post.students == pre.students)
        &&& (key.code is Esc ==> r == Some(AppEvent::GoBack))
        &&& ((key.code is Up || key.code == KeyCode::Char('k')) && pre.students@.len() > 0
                        ==> r is None && post.selected_index == (pre.selected_index + pre.students@.len() - 1) as int % pre.students@.len() as int)
        &&& ((key.code is Down || key.code == KeyCode::Char('j')) && pre.students@.len() > 0
                        ==> r is None && post.selected_index == (pre.selected_index + 1) as int
                        % pre.students@.len() as int)
        &&& (key.code is Enter && pre.students@.len() == 0 ==> r is None)
        &&& (key.code is Enter && pre.students@.len() > 0 ==> r == Some(
                        AppEvent::StudentDeleted(pre.students@[pre.selected_index as int].id),
                    ))
    }

    pub fn handle_key(&mut self, key: KeyInput) -> (r: Option<AppEvent>)
        requires
            old(self).wf(),
        ensures
            final(self).wf(),
            DeleteStudentScreen::key_rel(*old(self), key, *final(self), r),
    {
        match key.code {
            KeyCode::Esc => Some(AppEvent::GoBack),
            KeyCode::Up => {
                self.select_previous();
                None
            },
            KeyCode::Down => {
                self.select_next();
                None
            },
            KeyCode::Enter => {
                if self.students.len() == 0 {
                    None
                } else {
                    Some(AppEvent::StudentDeleted(self.students[self.selected_index].id))
                }
            },
            KeyCode::Char(c) => {
                if c == 'k' {
                    self.select_previous();
                } else if c == 'j' {
                    self.select_next();
                }
                None
            },
            _ => None,
        }
    }

    fn select_previous(&mut self)
        requires
            old(self).wf(),
        ensures
            final(self).wf(),
            final(self).class == old(self).class,
            final(self).students == old(self).students,
            old(self).students@.len() > 0 ==> final(self).selected_index == (old(self).selected_index + old(self).students@.len() - 1) as int % old(self).students@.len() as int,
            old(self).students@.len() == 0 ==> *final(self) == *old(self),
    {
        if self.students.len() > 0 {
            self.selected_index = (self.selected_index + self.students.len() - 1)
                % self.students.len();
        }
    }

    fn select_next(&mut self)
        requires
            old(self).wf(),
        ensures
            final(self).wf(),
            final(self).class == old(self).class,
            final(self).students == old(self).students,
            old(self).students@.len() > 0 ==> final(self).selected_index == (old(self).selected_index + 1) as int % old(self).students@.len() as int,
            old(self).students@.len() == 0 ==> *final(self) == *old(self),
    {
        if self.students.len() > 0 {
            self.selected_index = (self.selected_index + 1) % self.students.len();
        }
    }
}

/// The event the activity menu fires when its selected row is chosen.
pub open spec fn github_activity_enter_spec(m: AnimatedMenu) -> Option<AppEvent> {
    if m.items@.len() == 0 {
        None
    } else {
        let t = m.items@[m.selected as int].title@;
        if t == "Week View"@ {
            Some(AppEvent::ShowWeekView)
        } else if t == "Check Latest Activity"@ {
            Some(AppEvent::ShowLatestActivity)
        } else if t == "Back"@ {
            Some(AppEvent::GoBack)
        } else {
            None
        }
    }
}

/// The menu of one class's activity views.
#[derive(Debug)]
pub struct GitHubActivityScreen {
    pub class: Class,
    pub menu: AnimatedMenu,
}

impl GitHubActivityScreen {
    pub open spec fn wf(self) -> bool {
        self.menu.wf()
    }

    pub fn new(class: Class) -> (r: GitHubActivityScreen)
        ensures
            r.wf(),
            r.class == class,
            r.menu.items@.len() == 3,
            r.menu.selected == 0,
            r.menu.items@[0].title@ == "Week View"@,
            r.menu.items@[1].title@ == "Check Latest Activity"@,
            r.menu.items@[2].title@ == "Back"@,
    {
        let menu = MenuBuilder::new().title(class.name.as_str()).item(
            MenuItem::new("Week View").with_description(
                "View student activity for the past week",
            ),
        ).item(
            MenuItem::new("Check Latest Activity").with_description(
                "Display the latest commit time for each student",
            ),
        ).item(
            MenuItem::new("Back").with_description("Return to class management menu"),
        ).build();
        GitHubActivityScreen { class, menu }
    }

    /// React to one key: `j`/`k` and the arrows move the selection,
    /// enter or space fires the selected view, escape goes back.
    /// How one key press steps this screen and which event it fires;
    /// [`Self::handle_key`] ensures exactly this relation.
    pub open spec fn key_rel(pre: GitHubActivityScreen, key: KeyInput, post: GitHubActivityScreen, r: Option<AppEvent>) -> bool {
        &&& (post.class == pre.class)
        &&& (post.menu.items == pre.menu.items)
        &&& ((key.code is Up || key.code == KeyCode::Char('k') || key.code is Down || key.code
                        == KeyCode::Char('j')) ==> r is None)
        &&& ((key.code is Enter || key.code == KeyCode::Char(' ')) ==> r
                        == github_activity_enter_spec(pre.menu))
        &&& (key.code is Esc ==> r == Some(AppEvent::GoBack))
    }

    pub fn handle_key(&mut self, key: KeyInput) -> (r: Option<AppEvent>)
        requires
            old(self).wf(),
        ensures
            final(self).wf(),
            GitHubActivityScreen::key_rel(*old(self), key, *final(self), r),
    {
        match key.code {
            KeyCode::Up => {
                self.menu.select_previous();
                None
            },
            KeyCode::Down => {
                self.menu.select_next();
                None
            },
            KeyCode::Enter => self.enter_event(),
            KeyCode::Esc => Some(AppEvent::GoBack),
            KeyCode::Char(c) => {
                if c == 'k' {
                    self.menu.select_previous();
                    None
                } else if c == 'j' {
                    self.menu.select_next();
                    None
                } else if c == ' ' {
                    self.enter_event()
                } else {
                    None
                }
            },
            _ => None,
        }
    }

    fn enter_event(&self) -> (r: Option<AppEvent>)
        requires
            self.wf(),
        ensures
            r == github_activity_enter_spec(self.menu),
    {
        match self.menu.selected_item() {
            Some(item) => {
                if str_eq(item.title.as_str(), "Week View") {
                    Some(AppEvent::ShowWeekView)
                } else if str_eq(item.title.as_str(), "Check Latest Activity") {
                    Some(AppEvent::ShowLatestActivity)
                } else if str_eq(item.title.as_str(), "Back") {
                    Some(AppEvent::GoBack)
                } else {
                    None
                }
            },
            None => None,
        }
    }

    /// How one frame delta steps this screen: its menu's animations
    /// advance and nothing else moves. [`Self::update`] ensures exactly
    /// this relation.
    pub open spec fn update_rel(
        pre: GitHubActivityScreen,
        delta_ms: u64,
        animation_state: crate::animation::AnimationState,
        post: GitHubActivityScreen,
    ) -> bool {
        &&& crate::menu::AnimatedMenu::updated(pre.menu, post.menu, delta_ms, animation_state)
        &&& post.class == pre.class
    }

    /// Advance the menu animations.
    pub fn update(&mut self, delta_ms: u64, animation_state: &crate::animation::AnimationState)
        requires
            old(self).wf(),
            animation_state.wf(),
            delta_ms <= crate::animation::TIME_LIMIT,
        ensures
            final(self).wf(),
            GitHubActivityScreen::update_rel(*old(self), delta_ms, *animation_state, *final(self)),
    {
        self.menu.update(delta_ms, animation_state);
    }
}


/// The shape of the repository screen's top-level menu.
pub open spec fn repo_main_menu_ok(m: AnimatedMenu) -> bool {
    &&& m.items@.len() == 3
    &&& m.items@[0].title@ == "Clone All Repositories"@
    &&& m.items@[1].title@ == "Individual Student Actions"@
    &&& m.items@[2].title@ == "Back"@
}

/// The shape of the per-student repository actions menu.
pub open spec fn repo_actions_menu_ok(m: AnimatedMenu) -> bool {
    &&& m.items@.len() == 5
    &&& m.items@[0].title@ == "Clone Repo"@
    &&& m.items@[1].title@ == "Pull Repo"@
    &&& m.items@[2].title@ == "Clean Repo"@
    &&& m.items@[3].title@ == "Open in Terminal"@
    &&& m.items@[4].title@ == "Back"@
}

/// The repository screen: a top-level menu, a student picker, and a
/// per-student actions menu, one of which is active at a time.
#[derive(Debug)]
pub struct RepoManagementScreen {
    pub class: Class,
    pub students: Vec<Student>,
    pub menu: AnimatedMenu,
    pub selected_index: usize,
    pub show_actions: bool,
    pub show_main_menu: bool,
}

impl RepoManagementScreen {
    pub open spec fn wf(self) -> bool {
        &&& self.menu.wf()
        &&& (self.students@.len() > 0 ==> self.selected_index < self.students@.len())
        &&& (self.students@.len() == 0 ==> self.selected_index == 0)
        &&& self.students@.len() < 1000000000
        &&& (self.show_main_menu ==> !self.show_actions)
    }

    pub fn new(class: Class, students: Vec<Student>) -> (r: RepoManagementScreen)
        requires
            students@.len() < 1000000000,
        ensures
            r.wf(),
            r.class == class,
            r.students == students,
            r.selected_index == 0,
            !r.show_actions,
            r.show_main_menu,
            repo_main_menu_ok(r.menu),
    {
        let menu = MenuBuilder::new().title(class.name.as_str()).item(
            MenuItem::new("Clone All Repositories").with_description(
                "Clone all student repositories",
            ),
        ).item(
            MenuItem::new("Individual Student Actions").with_description(
                "Select individual student for actions",
            ),
        ).item(
            MenuItem::new("Back").with_description("Return to class management"),
        ).build();
        RepoManagementScreen {
            class,
            students,
            menu,
            selected_index: 0,
            show_actions: false,
            show_main_menu: true,
        }
    }

    /// Swap in the per-student actions menu.
    fn set_actions_menu(&mut self)
        requires
            old(self).wf(),
        ensures
            final(self).wf(),
            repo_actions_menu_ok(final(self).menu),
            final(self).menu.selected == 0,
            final(self).class == old(self).class,
            final(self).students == old(self).students,
            final(self).selected_index == old(self).selected_index,
            final(self).show_actions == old(self).show_actions,
            final(self).show_main_menu == old(self).show_main_menu,
    {
        self.menu = MenuBuilder::new().title("Repository Actions").item(
            MenuItem::new("Clone Repo").with_description("Clone GitHub Pages repo"),
        ).item(
            MenuItem::new("Pull Repo").with_description("Pull latest changes from remote"),
        ).item(
            MenuItem::new("Clean Repo").with_description("Reset local changes to match remote"),
        ).item(
            MenuItem::new("Open in Terminal").with_description("Open terminal at repo location"),
        ).item(
            MenuItem::new("Back").with_description("Return to student selection"),
        ).build();
    }

    /// React to one key in whichever of the three modes is active: the
    /// top-level menu fires batch actions, the student picker chooses
    /// whose repository to act on, and the actions menu fires one
    /// operation for the chosen student.
    /// How one key press steps this screen and which event it fires;
    /// [`Self::handle_key`] ensures exactly this relation.
    pub open spec fn key_rel(pre: RepoManagementScreen, key: KeyInput, post: RepoManagementScreen, r: Option<AppEvent>) -> bool {
        &&& (post.class == pre.class)
        &&& (post.students == pre.students)
        &&& (pre.show_main_menu ==> {
                        &&& (key.code is Up || key.code == KeyCode::Char('k') || key.code is Down
                            || key.code == KeyCode::Char('j')) ==> r is None
                        &&& (key.code is Enter || key.code == KeyCode::Char(' ')) && pre.menu.items@.len() > 0 ==> {
                            let t = pre.menu.items@[pre.menu.selected as int].title@;
                            &&& t == "Clone All Repositories"@ ==> r == Some(AppEvent::CloneAllRepos)
                            &&& t == "Individual Student Actions"@ ==> r is None && !post.show_main_menu && !post.show_actions
                            &&& t == "Back"@ ==> r == Some(AppEvent::GoBack)
                        }
                        &&& key.code is Esc ==> r == Some(AppEvent::GoBack)
                    })
        &&& (!pre.show_main_menu && pre.show_actions ==> {
                        &&& (key.code is Up || key.code == KeyCode::Char('k') || key.code is Down
                            || key.code == KeyCode::Char('j')) ==> r is None
                        &&& (key.code is Enter || key.code == KeyCode::Char(' ')) && pre.students@.len() > 0 && pre.menu.items@.len() > 0 ==> {
                            let t = pre.menu.items@[pre.menu.selected as int].title@;
                            let user = pre.students@[pre.selected_index as int].github_username@;
                            &&& t == "Clone Repo"@ ==> (r matches Some(AppEvent::CloneRepo(u)) && u@
                                == user)
                            &&& t == "Pull Repo"@ ==> (r matches Some(AppEvent::PullRepo(u)) && u@ == user)
                            &&& t == "Clean Repo"@ ==> (r matches Some(AppEvent::CleanRepo(u)) && u@
                                == user)
                            &&& t == "Open in Terminal"@ ==> (r matches Some(AppEvent::OpenInTerminal(u))
                                && u@ == user)
                            &&& t == "Back"@ ==> r is None && !post.show_actions
                        }
                        &&& key.code is Esc ==> r is None && !post.show_actions
                    })
        &&& (!pre.show_main_menu && !pre.show_actions ==> {
                        &&& (key.code is Up || key.code == KeyCode::Char('k')) ==> r is None && post.selected_index == (if pre.selected_index > 0 {
                            pre.selected_index - 1
                        } else {
                            0int
                        })
                        &&& (key.code is Down || key.code == KeyCode::Char('j')) ==> r is None && post.selected_index == (if pre.selected_index + 1 < pre.students@.len() {
                            pre.selected_index + 1
                        } else {
                            pre.selected_index as int
                        })
                        &&& (key.code is Enter || key.code == KeyCode::Char(' ')) && pre.students@.len() > 0 ==> r is None && post.show_actions
                            && repo_actions_menu_ok(post.menu)
                        &&& key.code is Esc ==> r is None && post.show_main_menu
                    })
    }

    pub fn handle_key(&mut self, key: KeyInput) -> (r: Option<AppEvent>)
        requires
            old(self).wf(),
        ensures
            final(self).wf(),
            RepoManagementScreen::key_rel(*old(self), key, *final(self), r),
    {
        if self.show_main_menu {
            match key.code {
                KeyCode::Up => {
                    self.menu.select_previous();
                    None
                },
                KeyCode::Down => {
                    self.menu.select_next();
                    None
                },
                KeyCode::Enter => self.main_enter(),
                KeyCode::Esc => Some(AppEvent::GoBack),
                KeyCode::Char(c) => {
                    if c == 'k' {
                        self.menu.select_previous();
                        None
                    } else if c == 'j' {
                        self.menu.select_next();
                        None
                    } else if c == ' ' {
                        self.main_enter()
                    } else {
                        None
                    }
                },
                _ => None,
            }
        } else if self.show_actions {
            match key.code {
                KeyCode::Up => {
                    self.menu.select_previous();
                    None
                },
                KeyCode::Down => {
                    self.menu.select_next();
                    None
                },
                KeyCode::Enter => self.actions_enter(),
                KeyCode::Esc => {
                    self.show_actions = false;
                    None
                },
                KeyCode::Char(c) => {
                    if c == 'k' {
                        self.menu.select_previous();
                        None
                    } else if c == 'j' {
                        self.menu.select_next();
                        None
                    } else if c == ' ' {
                        self.actions_enter()
                    } else {
                        None
                    }
                },
                _ => None,
            }
        } else {
            match key.code {
                KeyCode::Up => {
                    if self.selected_index > 0 {
                        self.selected_index = self.selected_index - 1;
                    }
                    None
                },
                KeyCode::Down => {
                    if self.selected_index + 1 < self.students.len() {
                        self.selected_index = self.selected_index + 1;
                    }
                    None
                },
                KeyCode::Enter => self.pick_student(),
                KeyCode::Esc => {
                    self.show_main_menu = true;
                    None
                },
                KeyCode::Char(c) => {
                    if c == 'k' {
                        if self.selected_index > 0 {
                            self.selected_index = self.selected_index - 1;
                        }
                        None
                    } else if c == 'j' {
                        if self.selected_index + 1 < self.students.len() {
                            self.selected_index = self.selected_index + 1;
                        }
                        None
                    } else if c == ' ' {
                        self.pick_student()
                    } else {
                        None
                    }
                },
                _ => None,
            }
        }
    }

    fn main_enter(&mut self) -> (r: Option<AppEvent>)
        requires
            old(self).wf(),
            old(self).show_main_menu,
        ensures
            final(self).wf(),
            final(self).class == old(self).class,
            final(self).students == old(self).students,
            final(self).selected_index == old(self).selected_index,
            old(self).menu.items@.len() > 0 ==> {
                let t = old(self).menu.items@[old(self).menu.selected as int].title@;
                &&& t == "Clone All Repositories"@ ==> r == Some(AppEvent::CloneAllRepos)
                &&& t == "Individual Student Actions"@ ==> r is None && !final(self).show_main_menu && !final(self).show_actions
                &&& t == "Back"@ ==> r == Some(AppEvent::GoBack)
            },
    {
        proof {
            reveal_strlit("Clone All Repositories");
            reveal_strlit("Individual Student Actions");
            reveal_strlit("Back");
            assert("Clone All Repositories"@.len() == 22);
            assert("Individual Student Actions"@.len() == 26);
            assert("Back"@.len() == 4);
        }
        let choice: u8 = match self.menu.selected_item() {
            Some(item) => {
                if str_eq(item.title.as_str(), "Clone All Repositories") {
                    1
                } else if str_eq(item.title.as_str(), "Individual Student Actions") {
                    2
                } else if str_eq(item.title.as_str(), "Back") {
                    3
                } else {
                    0
                }
            },
            None => 0,
        };
        if choice == 1 {
            Some(AppEvent::CloneAllRepos)
        } else if choice == 2 {
            self.show_main_menu = false;
            None
        } else if choice == 3 {
            Some(AppEvent::GoBack)
        } else {
            None
        }
    }

    fn actions_enter(&mut self) -> (r: Option<AppEvent>)
        requires
            old(self).wf(),
            !old(self).show_main_menu,
            old(self).show_actions,
        ensures
            final(self).wf(),
            final(self).class == old(self).class,
            final(self).students == old(self).students,
            final(self).selected_index == old(self).selected_index,
            final(self).show_main_menu == old(self).show_main_menu,
            old(self).students@.len() > 0 && old(self).menu.items@.len() > 0 ==> {
                let t = old(self).menu.items@[old(self).menu.selected as int].title@;
                let user = old(self).students@[old(self).selected_index as int].github_username@;
                &&& t == "Clone Repo"@ ==> (r matches Some(AppEvent::CloneRepo(u)) && u@ == user)
                &&& t == "Pull Repo"@ ==> (r matches Some(AppEvent::PullRepo(u)) && u@ == user)
                &&& t == "Clean Repo"@ ==> (r matches Some(AppEvent::CleanRepo(u)) && u@ == user)
                &&& t == "Open in Terminal"@ ==> (r matches Some(AppEvent::OpenInTerminal(u)) && u@
                    == user)
                &&& t == "Back"@ ==> r is None && !final(self).show_actions
            },
            old(self).students@.len() == 0 ==> r is None && final(self).show_actions == old(self).show_actions,
    {
        if self.students.len() == 0 {
            return None;
        }
        proof {
            reveal_strlit("Clone Repo");
            reveal_strlit("Pull Repo");
            reveal_strlit("Clean Repo");
            reveal_strlit("Open in Terminal");
            reveal_strlit("Back");
            assert("Clone Repo"@.len() == 10);
            assert("Pull Repo"@.len() == 9);
            assert("Clean Repo"@.len() == 10);
            assert("Open in Terminal"@.len() == 16);
            assert("Back"@.len() == 4);
            assert("Clone Repo"@[2] == 'o');
            assert("Clean Repo"@[2] == 'e');
        }
        let user = self.students[self.selected_index].github_username.clone();
        let choice: u8 = match self.menu.selected_item() {
            Some(item) => {
                if str_eq(item.title.as_str(), "Clone Repo") {
                    1
                } else if str_eq(item.title.as_str(), "Pull Repo") {
                    2
                } else if str_eq(item.title.as_str(), "Clean Repo") {
                    3
                } else if str_eq(item.title.as_str(), "Open in Terminal") {
                    4
                } else if str_eq(item.title.as_str(), "Back") {
                    5
                } else {
                    0
                }
            },
            None => 0,
        };
        if choice == 1 {
            Some(AppEvent::CloneRepo(user))
        } else if choice == 2 {
            Some(AppEvent::PullRepo(user))
        } else if choice == 3 {
            Some(AppEvent::CleanRepo(user))
        } else if choice == 4 {
            Some(AppEvent::OpenInTerminal(user))
        } else if choice == 5 {
            self.show_actions = false;
            None
        } else {
            None
        }
    }

    fn pick_student(&mut self) -> (r: Option<AppEvent>)
        requires
            old(self).wf(),
            !old(self).show_main_menu,
            !old(self).show_actions,
        ensures
            final(self).wf(),
            final(self).class == old(self).class,
            final(self).students == old(self).students,
            final(self).selected_index == old(self).selected_index,
            final(self).show_main_menu == old(self).show_main_menu,
            r is None,
            old(self).students@.len() > 0 ==> final(self).show_actions && repo_actions_menu_ok(
                final(self).menu,
            ),
            old(self).students@.len() == 0 ==> final(self).show_actions == old(self).show_actions,
    {
        if self.students.len() == 0 {
            return None;
        }
        self.show_actions = true;
        self.set_actions_menu();
        None
    }

    /// How one frame delta steps this screen: its menu's animations
    /// advance and nothing else moves. [`Self::update`] ensures exactly
    /// this relation.
    pub open spec fn update_rel(
        pre: RepoManagementScreen,
        delta_ms: u64,
        animation_state: crate::animation::AnimationState,
        post: RepoManagementScreen,
    ) -> bool {
        &&& crate::menu::AnimatedMenu::updated(pre.menu, post.menu, delta_ms, animation_state)
        &&& post.class == pre.class
        &&& post.students == pre.students
        &&& post.selected_index == pre.selected_index
        &&& post.show_actions == pre.show_actions
        &&& post.show_main_menu == pre.show_main_menu
    }

    /// Advance the menu animations.
    pub fn update(&mut self, delta_ms: u64, animation_state: &crate::animation::AnimationState)
        requires
            old(self).wf(),
            animation_state.wf(),
            delta_ms <= crate::animation::TIME_LIMIT,
        ensures
            final(self).wf(),
            RepoManagementScreen::update_rel(*old(self), delta_ms, *animation_state, *final(self)),
    {
        self.menu.update(delta_ms, animation_state);
    }
}

/// The week-activity table: one row per student, one column per trailing
/// weekday.
#[derive(Debug)]
pub struct WeekViewScreen {
    pub class: Class,
    pub students: Vec<Student>,
    pub activities: Vec<crate::activity::WeekActivity>,
    pub loading: bool,
    pub error: Option<String>,
    pub selected: usize,
}

impl WeekViewScreen {
    pub open spec fn wf(self) -> bool {
        &&& (self.activities@.len() > 0 ==> self.selected < self.activities@.len())
        &&& (self.activities@.len() == 0 ==> self.selected == 0)
        &&& self.activities@.len() < 1000000000
    }

    pub fn new(class: Class, students: Vec<Student>) -> (r: WeekViewScreen)
        ensures
            r.wf(),
            r.class == class,
            r.students == students,
            r.activities@.len() == 0,
            !r.loading,
            r.error is None,
            r.selected == 0,
    {
        WeekViewScreen {
            class,
            students,
            activities: Vec::new(),
            loading: false,
            error: None,
            selected: 0,
        }
    }

    /// Install freshly fetched activity rows.
    pub fn set_activities(&mut self, activities: Vec<crate::activity::WeekActivity>)
        requires
            activities@.len() < 1000000000,
        ensures
            final(self).wf(),
            final(self).activities == activities,
            !final(self).loading,
            final(self).error is None,
            final(self).selected == 0,
            final(self).class == old(self).class,
            final(self).students == old(self).students,
    {
        self.activities = activities;
        self.loading = false;
        self.error = None;
        self.selected = 0;
    }

    /// Mark the table as loading while a fetch is in flight.
    pub fn set_loading(&mut self)
        requires
            old(self).wf(),
        ensures
            final(self).wf(),
            final(self).loading,
            final(self).error is None,
            final(self).class == old(self).class,
            final(self).students == old(self).students,
            final(self).activities == old(self).activities,
            final(self).selected == old(self).selected,
    {
        self.loading = true;
        self.error = None;
    }

    /// React to one key: `j`/`k` and the arrows move along the rows
    /// without wrapping, `r` asks for a refresh, escape goes back.
    /// How one key press steps this screen and which event it fires;
    /// [`Self::handle_key`] ensures exactly this relation.
    pub open spec fn key_rel(pre: WeekViewScreen, key: KeyInput, post: WeekViewScreen, r: Option<AppEvent>) -> bool {
        &&& (post.class == pre.class)
        &&& (post.students == pre.students)
        &&& (post.activities == pre.activities)
        &&& ((key.code is Up || key.code == KeyCode::Char('k')) ==> r is None && post.selected == (if pre.selected > 0 {
                        pre.selected - 1
                    } else {
                        0int
                    }))
        &&& ((key.code is Down || key.code == KeyCode::Char('j')) ==> r is None && post.selected == (if pre.selected + 1 < pre.activities@.len() {
                        pre.selected + 1
                    } else {
                        pre.selected as int
                    }))
        &&& (key.code == KeyCode::Char('r') ==> r == Some(AppEvent::RefreshData))
        &&& (key.code is Esc ==> r == Some(AppEvent::GoBack))
    }

    pub fn handle_key(&mut self, key: KeyInput) -> (r: Option<AppEvent>)
        requires
            old(self).wf(),
        ensures
            final(self).wf(),
            WeekViewScreen::key_rel(*old(self), key, *final(self), r),
    {
        match key.code {
            KeyCode::Up => {
                if self.selected > 0 {
                    self.selected = self.selected - 1;
                }
                None
            },
            KeyCode::Down => {
                if self.selected + 1 < self.activities.len() {
                    self.selected = self.selected + 1;
                }
                None
            },
            KeyCode::Esc => Some(AppEvent::GoBack),
            KeyCode::Char(c) => {
                if c == 'k' {
                    if self.selected > 0 {
                        self.selected = self.selected - 1;
                    }
                    None
                } else if c == 'j' {
                    if self.selected + 1 < self.activities.len() {
                        self.selected = self.selected + 1;
                    }
                    None
                } else if c == 'r' {
                    Some(AppEvent::RefreshData)
                } else {
                    None
                }
            },
            _ => None,
        }
    }
}

/// The mark shown in one weekday cell: a check when the student
/// committed that day, a cross otherwise (and always a cross on a row
/// whose fetch failed).
pub open spec fn week_symbol(a: crate::activity::WeekActivity, d: crate::activity::Weekday) -> Seq<
    char,
> {
    if a.error is Some {
        "x"@
    } else if a.committed_on_spec(d) {
        "+"@
    } else {
        "x"@
    }
}

/// The text of one row's total column.
pub open spec fn week_total_cell(a: crate::activity::WeekActivity) -> Seq<char> {
    if a.error is Some {
        "Error"@
    } else {
        crate::strutil::dec_str(a.total_commits as nat)
    }
}

/// The shape of one rendered week-view row: the student, the five
/// weekday marks Monday through Friday, and the total.
pub open spec fn week_row_ok(a: crate::activity::WeekActivity, row: Seq<String>) -> bool {
    &&& row.len() == 7
    &&& row[0]@ == a.student_username@
    &&& row[1]@ == week_symbol(a, crate::activity::Weekday::Mon)
    &&& row[2]@ == week_symbol(a, crate::activity::Weekday::Tue)
    &&& row[3]@ == week_symbol(a, crate::activity::Weekday::Wed)
    &&& row[4]@ == week_symbol(a, crate::activity::Weekday::Thu)
    &&& row[5]@ == week_symbol(a, crate::activity::Weekday::Fri)
    &&& row[6]@ == week_total_cell(a)
}

/// The cell texts of the week-view table, one row per activity record in
/// order.
pub fn week_table_rows(activities: &Vec<crate::activity::WeekActivity>) -> (r: Vec<Vec<String>>)
    ensures
        r@.len() == activities@.len(),
        forall|i: int| 0 <= i < r@.len() ==> week_row_ok(activities@[i], #[trigger] r@[i]@),
{
    let mut rows: Vec<Vec<String>> = Vec::new();
    let mut i: usize = 0;
    while i < activities.len()
        invariant
            i <= activities@.len(),
            rows@.len() == i,
            forall|j: int| 0 <= j < i ==> week_row_ok(activities@[j], #[trigger] rows@[j]@),
        decreases activities@.len() - i,
    {
        let a = &activities[i];
        let mut row: Vec<String> = Vec::new();
        row.push(a.student_username.clone());
        row.push(week_symbol_exec(a, crate::activity::Weekday::Mon));
        row.push(week_symbol_exec(a, crate::activity::Weekday::Tue));
        row.push(week_symbol_exec(a, crate::activity::Weekday::Wed));
        row.push(week_symbol_exec(a, crate::activity::Weekday::Thu));
        row.push(week_symbol_exec(a, crate::activity::Weekday::Fri));
        if a.error.is_some() {
            row.push("Error".to_owned());
        } else {
            row.push(crate::strutil::u64_to_string(a.total_commits));
        }
        rows.push(row);
        i = i + 1;
    }
    rows
}

fn week_symbol_exec(a: &crate::activity::WeekActivity, d: crate::activity::Weekday) -> (r: String)
    ensures
        r@ == week_symbol(*a, d),
{
    if a.error.is_some() {
        "x".to_owned()
    } else if a.committed_on(d) {
        "+".to_owned()
    } else {
        "x".to_owned()
    }
}

/// The newest commit time recorded for a handle, if the fetch has
/// reached it yet: the first matching entry wins.
pub open spec fn latest_lookup(data: Seq<(String, Option<i64>)>, key: Seq<char>) -> Option<
    Option<i64>,
> decreases data.len() {
    if data.len() == 0 {
        None
    } else if data[0].0@ == key {
        Some(data[0].1)
    } else {
        latest_lookup(data.drop_first(), key)
    }
}

/// The newest-commit table: one row per student with how long ago their
/// latest commit happened.
#[derive(Debug)]
pub struct LatestActivityScreen {
    pub students: Vec<Student>,
    pub latest_activity_data: Vec<(String, Option<i64>)>,
    pub selected: usize,
    pub is_loading: bool,
    pub error_message: Option<String>,
}

impl LatestActivityScreen {
    pub open spec fn wf(self) -> bool {
        &&& (self.students@.len() > 0 ==> self.selected < self.students@.len())
        &&& (self.students@.len() == 0 ==> self.selected == 0)
        &&& self.students@.len() < 1000000000
    }

    pub fn new(students: Vec<Student>) -> (r: LatestActivityScreen)
        requires
            students@.len() < 1000000000,
        ensures
            r.wf(),
            r.students == students,
            r.latest_activity_data@.len() == 0,
            r.selected == 0,
            !r.is_loading,
            r.error_message is None,
    {
        LatestActivityScreen {
            students,
            latest_activity_data: Vec::new(),
            selected: 0,
            is_loading: false,
            error_message: None,
        }
    }

    /// Install freshly fetched commit times.
    pub fn set_activity_data(&mut self, data: Vec<(String, Option<i64>)>)
        requires
            old(self).wf(),
        ensures
            final(self).wf(),
            final(self).latest_activity_data == data,
            !final(self).is_loading,
            final(self).error_message is None,
            final(self).students == old(self).students,
            final(self).selected == old(self).selected,
    {
        self.latest_activity_data = data;
        self.is_loading = false;
        self.error_message = None;
    }

    /// Record that the fetch failed.
    pub fn set_error(&mut self, error: String)
        requires
            old(self).wf(),
        ensures
            final(self).wf(),
            final(self).error_message == Some(error),
            !final(self).is_loading,
            final(self).students == old(self).students,
            final(self).latest_activity_data == old(self).latest_activity_data,
            final(self).selected == old(self).selected,
    {
        self.error_message = Some(error);
        self.is_loading = false;
    }

    /// React to one key: the arrows move along the rows without
    /// wrapping, `r` asks for a refresh, `q` goes back.
    /// How one key press steps this screen and which event it fires;
    /// [`Self::handle_key`] ensures exactly this relation.
    pub open spec fn key_rel(pre: LatestActivityScreen, key: KeyInput, post: LatestActivityScreen, r: Option<AppEvent>) -> bool {
        &&& (post.students == pre.students)
        &&& (post.latest_activity_data == pre.latest_activity_data)
        &&& (key.code is Up ==> r is None && post.selected == (if pre.selected > 0 {
                        pre.selected - 1
                    } else {
                        0int
                    }))
        &&& (key.code is Down ==> r is None && post.selected == (if pre.selected + 1
                        < pre.students@.len() {
                        pre.selected + 1
                    } else {
                        pre.selected as int
                    }))
        &&& (key.code == KeyCode::Char('r') ==> r == Some(AppEvent::RefreshLatestActivity))
        &&& (key.code == KeyCode::Char('q') ==> r == Some(AppEvent::GoBack))
    }

    pub fn handle_key(&mut self, key: KeyInput) -> (r: Option<AppEvent>)
        requires
            old(self).wf(),
        ensures
            final(self).wf(),
            LatestActivityScreen::key_rel(*old(self), key, *final(self), r),
    {
        match key.code {
            KeyCode::Up => {
                if self.selected > 0 {
                    self.selected = self.selected - 1;
                }
                None
            },
            KeyCode::Down => {
                if self.selected + 1 < self.students.len() {
                    self.selected = self.selected + 1;
                }
                None
            },
            KeyCode::Char(c) => {
                if c == 'r' {
                    Some(AppEvent::RefreshLatestActivity)
                } else if c == 'q' {
                    Some(AppEvent::GoBack)
                } else {
                    None
                }
            },
            _ => None,
        }
    }
}

/// The text of one latest-activity cell: still loading, no commits, or
/// how long ago the newest one happened.
pub open spec fn latest_cell(
    data: Seq<(String, Option<i64>)>,
    handle: Seq<char>,
    now_secs: i64,
) -> Seq<char> {
    match latest_lookup(data, handle) {
        None => "Loading..."@,
        Some(None) => "No commits found"@,
        Some(Some(t)) => crate::activity::format_time_ago_spec(now_secs - t),
    }
}

/// The shape of one rendered latest-activity row.
pub open spec fn latest_row_ok(
    s: Student,
    data: Seq<(String, Option<i64>)>,
    now_secs: i64,
    row: Seq<String>,
) -> bool {
    &&& row.len() == 3
    &&& row[0]@ == s.username@
    &&& row[1]@ == s.github_username@
    &&& row[2]@ == latest_cell(data, s.github_username@, now_secs)
}

/// The cell texts of the latest-activity table, one row per student in
/// order, given the current time.
pub fn latest_table_rows(
    students: &Vec<Student>,
    data: &Vec<(String, Option<i64>)>,
    now_secs: i64,
) -> (r: Vec<Vec<String>>)
    requires
        0 <= now_secs < 4000000000000,
        forall|i: int| 0 <= i < data@.len() ==> (#[trigger] data@[i].1 matches Some(t) ==> -4000000000000
            < t < 4000000000000),
    ensures
        r@.len() == students@.len(),
        forall|i: int| 0 <= i < r@.len() ==> latest_row_ok(
            students@[i],
            data@,
            now_secs,
            #[trigger] r@[i]@,
        ),
{
    let mut rows: Vec<Vec<String>> = Vec::new();
    let mut i: usize = 0;
    while i < students.len()
        invariant
            i <= students@.len(),
            rows@.len() == i,
            0 <= now_secs < 4000000000000,
            forall|k: int| 0 <= k < data@.len() ==> (#[trigger] data@[k].1 matches Some(t) ==> -4000000000000
                < t < 4000000000000),
            forall|j: int| 0 <= j < i ==> latest_row_ok(
                students@[j],
                data@,
                now_secs,
                #[trigger] rows@[j]@,
            ),
        decreases students@.len() - i,
    {
        let s = &students[i];
        let mut row: Vec<String> = Vec::new();
        row.push(s.username.clone());
        row.push(s.github_username.clone());
        row.push(latest_cell_exec(data, s.github_username.as_str(), now_secs));
        rows.push(row);
        i = i + 1;
    }
    rows
}

fn latest_cell_exec(data: &Vec<(String, Option<i64>)>, handle: &str, now_secs: i64) -> (r: String)
    requires
        0 <= now_secs < 4000000000000,
        forall|i: int| 0 <= i < data@.len() ==> (#[trigger] data@[i].1 matches Some(t) ==> -4000000000000
            < t < 4000000000000),
    ensures
        r@ == latest_cell(data@, handle@, now_secs),
{
    let mut i: usize = 0;
    proof {
        assert(data@.skip(0) =~= data@);
    }
    while i < data.len()
        invariant
            i <= data@.len(),
            0 <= now_secs < 4000000000000,
            forall|k: int| 0 <= k < data@.len() ==> (#[trigger] data@[k].1 matches Some(t) ==> -4000000000000
                < t < 4000000000000),
            latest_lookup(data@, handle@) == latest_lookup(data@.skip(i as int), handle@),
        decreases data@.len() - i,
    {
        proof {
            assert(data@.skip(i as int)[0] == data@[i as int]);
            assert(data@.skip(i as int).drop_first() =~= data@.skip(i + 1));
        }
        if str_eq(data[i].0.as_str(), handle) {
            match data[i].1 {
                Some(t) => {
                    return crate::activity::format_time_ago(now_secs - t);
                },
                None => {
                    return "No commits found".to_owned();
                },
            }
        }
        i = i + 1;
    }
    proof {
        assert(data@.skip(data@.len() as int) =~= Seq::<(String, Option<i64>)>::empty());
    }
    "Loading...".to_owned()
}


/// Why the factory refused to build a screen.
#[derive(Debug, Clone, Copy, PartialEq, Eq, Structural)]
pub enum ScreenError {
    /// The view needs a context payload and none (of the right shape)
    /// was supplied.
    MissingContext(ScreenTypeVariant),
    /// The view has no implementation yet.
    NotImplemented(ScreenTypeVariant),
}

/// The closed set of concrete screens, one variant per view.
#[derive(Debug)]
pub enum ScreenModel {
    MainMenu(MainMenuScreen),
    ClassSelection(ClassSelectionScreen),
    CreateClass(CreateClassScreen),
    ClassManagement(ClassManagementScreen),
    StudentManagement(StudentManagementScreen),
    AddStudents(AddStudentsScreen),
    DeleteStudent(DeleteStudentScreen),
    GitHubActivity(GitHubActivityScreen),
    RepositoryManagement(RepoManagementScreen),
    WeekView(WeekViewScreen),
    LatestActivity(LatestActivityScreen),
}

impl ScreenModel {
    pub open spec fn wf(self) -> bool {
        match self {
            ScreenModel::MainMenu(s) => s.wf(),
            ScreenModel::ClassSelection(s) => s.wf(),
            ScreenModel::CreateClass(s) => s.wf(),
            ScreenModel::ClassManagement(s) => s.wf(),
            ScreenModel::StudentManagement(s) => s.wf(),
            ScreenModel::AddStudents(s) => s.wf(),
            ScreenModel::DeleteStudent(s) => s.wf(),
            ScreenModel::GitHubActivity(s) => s.wf(),
            ScreenModel::RepositoryManagement(s) => s.wf(),
            ScreenModel::WeekView(s) => s.wf(),
            ScreenModel::LatestActivity(s) => s.wf(),
        }
    }

    /// The tag of the view this screen shows.
    pub open spec fn variant_of(self) -> ScreenTypeVariant {
        match self {
            ScreenModel::MainMenu(_) => ScreenTypeVariant::MainMenu,
            ScreenModel::ClassSelection(_) => ScreenTypeVariant::ClassSelection,
            ScreenModel::CreateClass(_) => ScreenTypeVariant::CreateClass,
            ScreenModel::ClassManagement(_) => ScreenTypeVariant::ClassManagement,
            ScreenModel::StudentManagement(_) => ScreenTypeVariant::StudentManagement,
            ScreenModel::AddStudents(_) => ScreenTypeVariant::AddStudents,
            ScreenModel::DeleteStudent(_) => ScreenTypeVariant::DeleteStudent,
            ScreenModel::GitHubActivity(_) => ScreenTypeVariant::GitHubActivity,
            ScreenModel::RepositoryManagement(_) => ScreenTypeVariant::RepositoryManagement,
            ScreenModel::WeekView(_) => ScreenTypeVariant::WeekView,
            ScreenModel::LatestActivity(_) => ScreenTypeVariant::LatestActivity,
        }
    }

    /// The identity this screen answers to: its tag, with the class it
    /// is scoped to attached where there is one.
    pub open spec fn screen_type_spec(self) -> ScreenType {
        match self {
            ScreenModel::ClassManagement(s) => ScreenType {
                variant: ScreenTypeVariant::ClassManagement,
                context: Some(ScreenContext::Class(s.class)),
            },
            ScreenModel::StudentManagement(s) => ScreenType {
                variant: ScreenTypeVariant::StudentManagement,
                context: Some(ScreenContext::Class(s.class)),
            },
            ScreenModel::AddStudents(s) => ScreenType {
                variant: ScreenTypeVariant::AddStudents,
                context: Some(ScreenContext::Class(s.class)),
            },
            ScreenModel::DeleteStudent(s) => ScreenType {
                variant: ScreenTypeVariant::DeleteStudent,
                context: Some(ScreenContext::Class(s.class)),
            },
            ScreenModel::GitHubActivity(s) => ScreenType {
                variant: ScreenTypeVariant::GitHubActivity,
                context: Some(ScreenContext::Class(s.class)),
            },
            ScreenModel::RepositoryManagement(s) => ScreenType {
                variant: ScreenTypeVariant::RepositoryManagement,
                context: Some(ScreenContext::Class(s.class)),
            },
            ScreenModel::WeekView(s) => ScreenType {
                variant: ScreenTypeVariant::WeekView,
                context: Some(ScreenContext::Class(s.class)),
            },
            _ => ScreenType { variant: self.variant_of(), context: None },
        }
    }

    pub fn screen_type(&self) -> (r: ScreenType)
        ensures
            r == self.screen_type_spec(),
            r.variant == self.variant_of(),
    {
        match self {
            ScreenModel::MainMenu(_) => ScreenType::new(ScreenTypeVariant::MainMenu),
            ScreenModel::ClassSelection(_) => ScreenType::new(ScreenTypeVariant::ClassSelection),
            ScreenModel::CreateClass(_) => ScreenType::new(ScreenTypeVariant::CreateClass),
            ScreenModel::ClassManagement(s) => ScreenType::new(
                ScreenTypeVariant::ClassManagement,
            ).with_context(ScreenContext::Class(s.class.clone())),
            ScreenModel::StudentManagement(s) => ScreenType::new(
                ScreenTypeVariant::StudentManagement,
            ).with_context(ScreenContext::Class(s.class.clone())),
            ScreenModel::AddStudents(s) => ScreenType::new(
                ScreenTypeVariant::AddStudents,
            ).with_context(ScreenContext::Class(s.class.clone())),
            ScreenModel::DeleteStudent(s) => ScreenType::new(
                ScreenTypeVariant::DeleteStudent,
            ).with_context(ScreenContext::Class(s.class.clone())),
            ScreenModel::GitHubActivity(s) => ScreenType::new(
                ScreenTypeVariant::GitHubActivity,
            ).with_context(ScreenContext::Class(s.class.clone())),
            ScreenModel::RepositoryManagement(s) => ScreenType::new(
                ScreenTypeVariant::RepositoryManagement,
            ).with_context(ScreenContext::Class(s.class.clone())),
            ScreenModel::WeekView(s) => ScreenType::new(ScreenTypeVariant::WeekView).with_context(
                ScreenContext::Class(s.class.clone()),
            ),
            ScreenModel::LatestActivity(_) => ScreenType::new(ScreenTypeVariant::LatestActivity),
        }
    }

    /// Hand one key press to whichever screen is active. Each screen's
    /// own contract pins what it does with the key; here, the active
    /// view's tag never changes, and a class-scoped view stays scoped to
    /// the same class.
    /// How one key press steps this screen and which event it fires;
    /// [`Self::handle_key`] ensures exactly this relation.
    /// How one key press steps whichever screen is active: the same kind
    /// of screen comes out, stepped by its own key relation.
    pub open spec fn key_rel(pre: ScreenModel, key: KeyInput, post: ScreenModel, r: Option<
        AppEvent,
    >) -> bool {
        match pre {
            ScreenModel::MainMenu(s0) => post matches ScreenModel::MainMenu(s1)
                && MainMenuScreen::key_rel(s0, key, s1, r),
            ScreenModel::ClassSelection(s0) => post matches ScreenModel::ClassSelection(s1)
                && ClassSelectionScreen::key_rel(s0, key, s1, r),
            ScreenModel::CreateClass(s0) => post matches ScreenModel::CreateClass(s1)
                && CreateClassScreen::key_rel(s0, key, s1, r),
            ScreenModel::ClassManagement(s0) => post matches ScreenModel::ClassManagement(s1)
                && ClassManagementScreen::key_rel(s0, key, s1, r),
            ScreenModel::StudentManagement(s0) => post matches ScreenModel::StudentManagement(s1)
                && StudentManagementScreen::key_rel(s0, key, s1, r),
            ScreenModel::AddStudents(s0) => post matches ScreenModel::AddStudents(s1)
                && AddStudentsScreen::key_rel(s0, key, s1, r),
            ScreenModel::DeleteStudent(s0) => post matches ScreenModel::DeleteStudent(s1)
                && DeleteStudentScreen::key_rel(s0, key, s1, r),
            ScreenModel::GitHubActivity(s0) => post matches ScreenModel::GitHubActivity(s1)
                && GitHubActivityScreen::key_rel(s0, key, s1, r),
            ScreenModel::RepositoryManagement(s0) => post matches ScreenModel::RepositoryManagement(
                s1,
            ) && RepoManagementScreen::key_rel(s0, key, s1, r),
            ScreenModel::WeekView(s0) => post matches ScreenModel::WeekView(s1)
                && WeekViewScreen::key_rel(s0, key, s1, r),
            ScreenModel::LatestActivity(s0) => post matches ScreenModel::LatestActivity(s1)
                && LatestActivityScreen::key_rel(s0, key, s1, r),
        }
    }

    pub fn handle_key(&mut self, key: KeyInput) -> (r: Option<AppEvent>)
        requires
            old(self).wf(),
        ensures
            final(self).wf(),
            ScreenModel::key_rel(*old(self), key, *final(self), r),
            final(self).variant_of() == old(self).variant_of(),
            old(self).screen_type_spec().context matches Some(ScreenContext::Class(c)) ==> final(self).screen_type_spec().context == Some(ScreenContext::Class(c)),
    {
        match self {
            ScreenModel::MainMenu(s) => s.handle_key(key),
            ScreenModel::ClassSelection(s) => s.handle_key(key),
            ScreenModel::CreateClass(s) => s.handle_key(key),
            ScreenModel::ClassManagement(s) => s.handle_key(key),
            ScreenModel::StudentManagement(s) => s.handle_key(key),
            ScreenModel::AddStudents(s) => s.handle_key(key),
            ScreenModel::DeleteStudent(s) => s.handle_key(key),
            ScreenModel::GitHubActivity(s) => s.handle_key(key),
            ScreenModel::RepositoryManagement(s) => s.handle_key(key),
            ScreenModel::WeekView(s) => s.handle_key(key),
            ScreenModel::LatestActivity(s) => s.handle_key(key),
        }
    }

    /// How one frame delta steps whichever screen is active: the animated
    /// screens advance their clocks by their own relations, and the
    /// static ones do not move.
    pub open spec fn update_rel(
        pre: ScreenModel,
        delta_ms: u64,
        animation_state: crate::animation::AnimationState,
        post: ScreenModel,
    ) -> bool {
        match pre {
            ScreenModel::MainMenu(s0) => post matches ScreenModel::MainMenu(s1)
                && MainMenuScreen::update_rel(s0, delta_ms, animation_state, s1),
            ScreenModel::ClassSelection(s0) => post matches ScreenModel::ClassSelection(s1)
                && ClassSelectionScreen::update_rel(s0, delta_ms, animation_state, s1),
            ScreenModel::CreateClass(s0) => post matches ScreenModel::CreateClass(s1)
                && CreateClassScreen::update_rel(s0, delta_ms, s1),
            ScreenModel::GitHubActivity(s0) => post matches ScreenModel::GitHubActivity(s1)
                && GitHubActivityScreen::update_rel(s0, delta_ms, animation_state, s1),
            ScreenModel::RepositoryManagement(s0) => post matches ScreenModel::RepositoryManagement(
                s1,
            ) && RepoManagementScreen::update_rel(s0, delta_ms, animation_state, s1),
            _ => post == pre,
        }
    }

    /// Advance the active screen's animations by a frame delta.
    pub fn update(&mut self, delta_ms: u64, animation_state: &crate::animation::AnimationState)
        requires
            old(self).wf(),
            animation_state.wf(),
            delta_ms <= crate::animation::TIME_LIMIT,
        ensures
            final(self).wf(),
            ScreenModel::update_rel(*old(self), delta_ms, *animation_state, *final(self)),
            final(self).variant_of() == old(self).variant_of(),
    {
        match self {
            ScreenModel::MainMenu(s) => s.update(delta_ms, animation_state),
            ScreenModel::ClassSelection(s) => s.update(delta_ms, animation_state),
            ScreenModel::CreateClass(s) => s.update(delta_ms),
            ScreenModel::GitHubActivity(s) => s.update(delta_ms, animation_state),
            ScreenModel::RepositoryManagement(s) => s.update(delta_ms, animation_state),
            _ => {},
        }
    }
}

/// Build the screen a given identity names. Views that need a class
/// payload fail fast with a descriptive error when it is missing, and
/// the views that exist only as tags fail as not implemented; nothing is
/// half-built. The `students` argument carries the eagerly loaded
/// student list to the views that show one.
pub fn create_screen(screen_type: ScreenType, students: Vec<Student>) -> (r: Result<
    ScreenModel,
    ScreenError,
>)
    requires
        students@.len() < 1000000000,
    ensures
        r matches Ok(m) ==> m.wf() && m.variant_of() == screen_type.variant,
        screen_type.variant is MainMenu ==> (r matches Ok(m) && m is MainMenu),
        screen_type.variant is ClassSelection ==> (r matches Ok(m) && m is ClassSelection),
        screen_type.variant is CreateClass ==> (r matches Ok(m) && m is CreateClass),
        crate::screen::unimplemented_variant(screen_type.variant) ==> r == Err::<
            ScreenModel,
            ScreenError,
        >(ScreenError::NotImplemented(screen_type.variant)),
        crate::screen::requires_context(screen_type.variant) && !(
        screen_type.context matches Some(ScreenContext::Class(_))) ==> r == Err::<
            ScreenModel,
            ScreenError,
        >(ScreenError::MissingContext(screen_type.variant)),
        screen_type.context matches Some(ScreenContext::Class(c)) ==> {
            &&& screen_type.variant is ClassManagement ==> (r matches Ok(
                ScreenModel::ClassManagement(s),
            ) && s.class == c)
            &&& screen_type.variant is StudentManagement ==> (r matches Ok(
                ScreenModel::StudentManagement(s),
            ) && s.class == c)
            &&& screen_type.variant is AddStudents ==> (r matches Ok(ScreenModel::AddStudents(s))
                && s.class == c)
            &&& screen_type.variant is DeleteStudent ==> (r matches Ok(
                ScreenModel::DeleteStudent(s),
            ) && s.class == c && s.students == students)
            &&& screen_type.variant is GitHubActivity ==> (r matches Ok(
                ScreenModel::GitHubActivity(s),
            ) && s.class == c)
            &&& screen_type.variant is RepositoryManagement ==> (r matches Ok(
                ScreenModel::RepositoryManagement(s),
            ) && s.class == c && s.students == students)
            &&& screen_type.variant is WeekView ==> (r matches Ok(ScreenModel::WeekView(s))
                && s.class == c && s.students == students)
            &&& screen_type.variant is LatestActivity ==> (r matches Ok(
                ScreenModel::LatestActivity(s),
            ) && s.students == students)
        },
{
    let ScreenType { variant, context } = screen_type;
    match variant {
        ScreenTypeVariant::MainMenu => Ok(ScreenModel::MainMenu(MainMenuScreen::new())),
        ScreenTypeVariant::ClassSelection => Ok(
            ScreenModel::ClassSelection(ClassSelectionScreen::new()),
        ),
        ScreenTypeVariant::CreateClass => Ok(ScreenModel::CreateClass(CreateClassScreen::new())),
        ScreenTypeVariant::ClassManagement => {
            match context {
                Some(ScreenContext::Class(class)) => Ok(
                    ScreenModel::ClassManagement(ClassManagementScreen::new(class)),
                ),
                _ => Err(ScreenError::MissingContext(ScreenTypeVariant::ClassManagement)),
            }
        },
        ScreenTypeVariant::StudentManagement => {
            match context {
                Some(ScreenContext::Class(class)) => Ok(
                    ScreenModel::StudentManagement(StudentManagementScreen::new(class)),
                ),
                _ => Err(ScreenError::MissingContext(ScreenTypeVariant::StudentManagement)),
            }
        },
        ScreenTypeVariant::AddStudents => {
            match context {
                Some(ScreenContext::Class(class)) => Ok(
                    ScreenModel::AddStudents(AddStudentsScreen::new(class)),
                ),
                _ => Err(ScreenError::MissingContext(ScreenTypeVariant::AddStudents)),
            }
        },
        ScreenTypeVariant::DeleteStudent => {
            match context {
                Some(ScreenContext::Class(class)) => Ok(
                    ScreenModel::DeleteStudent(DeleteStudentScreen::new(class, students)),
                ),
                _ => Err(ScreenError::MissingContext(ScreenTypeVariant::DeleteStudent)),
            }
        },
        ScreenTypeVariant::GitHubActivity => {
            match context {
                Some(ScreenContext::Class(class)) => Ok(
                    ScreenModel::GitHubActivity(GitHubActivityScreen::new(class)),
                ),
                _ => Err(ScreenError::MissingContext(ScreenTypeVariant::GitHubActivity)),
            }
        },
        ScreenTypeVariant::RepositoryManagement => {
            match context {
                Some(ScreenContext::Class(class)) => Ok(
                    ScreenModel::RepositoryManagement(RepoManagementScreen::new(class, students)),
                ),
                _ => Err(ScreenError::MissingContext(ScreenTypeVariant::RepositoryManagement)),
            }
        },
        ScreenTypeVariant::WeekView => {
            match context {
                Some(ScreenContext::Class(class)) => Ok(
                    ScreenModel::WeekView(WeekViewScreen::new(class, students)),
                ),
                _ => Err(ScreenError::MissingContext(ScreenTypeVariant::WeekView)),
            }
        },
        ScreenTypeVariant::LatestActivity => {
            match context {
                Some(ScreenContext::Class(_)) => Ok(
                    ScreenModel::LatestActivity(LatestActivityScreen::new(students)),
                ),
                _ => Err(ScreenError::MissingContext(ScreenTypeVariant::LatestActivity)),
            }
        },
        ScreenTypeVariant::Settings => Err(ScreenError::NotImplemented(ScreenTypeVariant::Settings)),
        ScreenTypeVariant::ConfirmDeleteClass => Err(
            ScreenError::NotImplemented(ScreenTypeVariant::ConfirmDeleteClass),
        ),
        ScreenTypeVariant::RemoveStudent => Err(
            ScreenError::NotImplemented(ScreenTypeVariant::RemoveStudent),
        ),
    }
}

} // verus!
