//! The application controller: the single-threaded state machine behind
//! the render/event loop.
//!
//! One iteration of the loop is: hand any key press to
//! [`App::handle_key_event`], perform the effect it asks for (storage,
//! network or process work happens outside and its outcome returns
//! through [`App::handle_completion`]), advance the clock with
//! [`App::advance_frame`], and repaint. A banner on display swallows the
//! next key press whole, and the global quit keys are answered before the
//! active screen ever sees them, so no screen can shadow them. Going back
//! with nothing on the stack quits: that is this controller's one
//! consistent policy for the empty stack.

use vstd::prelude::*;
use vstd::string::StringExecFns;
use crate::animation::AnimationState;
use crate::config::Config;
use crate::events::{AppEvent, Completion, Effect, RepoOp};
use crate::gitops::{failure_lines, ok_count, summarize_clone_results};
use crate::keys::{is_global_quit, KeyCode, KeyInput};
use crate::layout::ResponsiveLayout;
use crate::menu::MENU_LIMIT;
use crate::models::Class;
use crate::screen::{
    needs_students, requires_context, unimplemented_variant, ScreenContext, ScreenType,
    ScreenTypeVariant,
};
use crate::screens::{create_screen, ScreenError, ScreenModel};
use crate::state::{AppState, Banner, NavigationStack};
use crate::strutil::{dec_str, u64_to_string};
use crate::themes::Themes;

verus! {

/// Whether this identity can be built on the spot, with no collaborator
/// round-trip first.
pub open spec fn directly_buildable(st: ScreenType) -> bool {
    &&& !unimplemented_variant(st.variant)
    &&& !needs_students(st.variant)
    &&& (requires_context(st.variant) ==> st.context matches Some(ScreenContext::Class(_)))
}

/// The whole application: context, back-stack, the active screen, the
/// animation clock, and the quit flag.
pub struct App {
    pub state: AppState,
    pub navigation_stack: NavigationStack,
    pub current_screen: ScreenModel,
    pub should_quit: bool,
    pub animation_state: AnimationState,
    pub layout: ResponsiveLayout,
    pub themes: Themes,
    pub config: Config,
}

impl App {
    pub open spec fn wf(self) -> bool {
        &&& self.current_screen.wf()
        &&& self.animation_state.wf()
    }

    /// A fresh application showing the main menu. Storage, the terminal
    /// and the working directory for clones are prepared outside and
    /// handed in as plain values.
    pub fn new(repos_dir: String, github_token: Option<String>, config: Config) -> (r: App)
        ensures
            r.wf(),
            r.current_screen is MainMenu,
            r.navigation_stack@.len() == 0,
            !r.should_quit,
            !r.state.loading,
            r.state.banner is None,
            r.state.current_class is None,
            r.state.github_token == github_token,
            r.state.git_manager.repos_dir == repos_dir,
            r.config == config,
    {
        let mut state = AppState::new(repos_dir);
        state.set_github_token(github_token);
        App {
            state,
            navigation_stack: NavigationStack::new(),
            current_screen: ScreenModel::MainMenu(crate::screens::MainMenuScreen::new()),
            should_quit: false,
            animation_state: AnimationState::new(),
            layout: ResponsiveLayout::new(),
            themes: Themes::new(),
            config,
        }
    }

    /// Handle one key press. A banner on display is dismissed by any key,
    /// which is otherwise swallowed — no event is produced and nothing
    /// else changes. Failing that, the global quit keys are answered
    /// before the active screen sees anything; only then does the key
    /// reach the screen, whose event (if any) is dispatched.
    pub fn handle_key_event(&mut self, key: KeyInput) -> (eff: Option<Effect>)
        requires
            old(self).wf(),
        ensures
            final(self).wf(),
            old(self).state.banner is Some ==> {
                &&& final(self).state.banner is None
                &&& eff is None
                &&& final(self).state.loading == old(self).state.loading
                &&& final(self).state.loading_message == old(self).state.loading_message
                &&& final(self).state.current_class == old(self).state.current_class
                &&& final(self).navigation_stack@ == old(self).navigation_stack@
                &&& final(self).should_quit == old(self).should_quit
                &&& final(self).current_screen == old(self).current_screen
            },
            old(self).state.banner is None && is_global_quit(key) ==> {
                &&& final(self).should_quit
                &&& eff is None
                &&& final(self).state == old(self).state
                &&& final(self).navigation_stack@ == old(self).navigation_stack@
                &&& final(self).current_screen == old(self).current_screen
            },
            old(self).state.banner is None && !is_global_quit(key) ==> exists|
                mid: ScreenModel,
                ev: Option<AppEvent>,
            |
                {
                    &&& #[trigger] ScreenModel::key_rel(old(self).current_screen, key, mid, ev)
                    &&& match ev {
                        None => *final(self) == (App { current_screen: mid, ..*old(self) })
                            && eff is None,
                        Some(e) => App::dispatch_rel(
                            App { current_screen: mid, ..*old(self) },
                            e,
                            *final(self),
                            eff,
                        ),
                    }
                },
    {
        if self.state.has_banner() {
            self.state.set_error(None);
            return None;
        }
        let quit = match key.code {
            KeyCode::Char(c) => (c == 'c' && key.ctrl) || (c == 'q' && !key.ctrl),
            _ => false,
        };
        if quit {
            self.should_quit = true;
            return None;
        }
        let event = self.current_screen.handle_key(key);
        let ghost mid = self.current_screen;
        let ghost ev = event;
        proof {
            assert(ScreenModel::key_rel(old(self).current_screen, key, mid, ev));
            assert(*self == (App { current_screen: mid, ..*old(self) }));
        }
        match event {
            Some(e) => self.dispatch(e),
            None => None,
        }
    }

    /// Show an identity: fail fast with a banner when it cannot be built,
    /// ask for its student list first when it needs one, and otherwise
    /// swap it in, remembering the screen being left on the back-stack.
    /// Arriving at the class list always triggers a refresh of its data.
    fn navigate_to(&mut self, st: ScreenType) -> (eff: Option<Effect>)
        requires
            old(self).wf(),
        ensures
            final(self).wf(),
            final(self).should_quit == old(self).should_quit,
            final(self).state.current_class == old(self).state.current_class,
            unimplemented_variant(st.variant) || (requires_context(st.variant) && !(
            st.context matches Some(ScreenContext::Class(_)))) ==> {
                &&& final(self).state.banner is Some
                &&& final(self).current_screen == old(self).current_screen
                &&& final(self).navigation_stack@ == old(self).navigation_stack@
                &&& eff is None
            },
            st.context matches Some(ScreenContext::Class(c)) ==> ((!unimplemented_variant(
                st.variant,
            ) && needs_students(st.variant)) ==> {
                &&& final(self).state.loading
                &&& eff == Some(
                    Effect::LoadStudents { target: st.variant, class: c, push_current: true },
                )
                &&& final(self).current_screen == old(self).current_screen
                &&& final(self).navigation_stack@ == old(self).navigation_stack@
            }),
            directly_buildable(st) ==> {
                &&& final(self).current_screen.variant_of() == st.variant
                &&& final(self).navigation_stack@ == old(self).navigation_stack@.push(
                    old(self).current_screen.screen_type_spec(),
                )
                &&& final(self).animation_state.transition_progress == old(self).animation_state.transition_progress.animate_to_spec(
                    crate::easing::EASE_SCALE,
                    300,
                    crate::easing::EasingFunction::EaseInOut,
                )
                &&& eff == (if st.variant is ClassSelection {
                    Some(Effect::RefreshClasses)
                } else {
                    None::<Effect>
                })
            },
    {
        let variant = *st.variant();
        let is_unimplemented = match variant {
            ScreenTypeVariant::Settings => true,
            ScreenTypeVariant::ConfirmDeleteClass => true,
            ScreenTypeVariant::RemoveStudent => true,
            _ => false,
        };
        if is_unimplemented {
            let mut m = String::new();
            m.append("Screen not implemented: ");
            m.append(variant.name());
            self.state.set_error(Some(m));
            return None;
        }
        let needs_ctx = match variant {
            ScreenTypeVariant::ClassManagement => true,
            ScreenTypeVariant::StudentManagement => true,
            ScreenTypeVariant::AddStudents => true,
            ScreenTypeVariant::DeleteStudent => true,
            ScreenTypeVariant::GitHubActivity => true,
            ScreenTypeVariant::RepositoryManagement => true,
            ScreenTypeVariant::WeekView => true,
            ScreenTypeVariant::LatestActivity => true,
            _ => false,
        };
        let has_class_ctx = match st.context() {
            Some(ScreenContext::Class(_)) => true,
            _ => false,
        };
        if needs_ctx && !has_class_ctx {
            let mut m = String::new();
            m.append(variant.name());
            m.append(" screen requires a class context");
            self.state.set_error(Some(m));
            return None;
        }
        let wants_students = match variant {
            ScreenTypeVariant::DeleteStudent => true,
            ScreenTypeVariant::RepositoryManagement => true,
            ScreenTypeVariant::WeekView => true,
            ScreenTypeVariant::LatestActivity => true,
            _ => false,
        };
        if wants_students {
            let class = match st.context() {
                Some(ScreenContext::Class(c)) => c.clone(),
                _ => {
                    return None;
                },
            };
            self.state.set_loading(true, "Loading students...".to_owned());
            return Some(Effect::LoadStudents { target: variant, class, push_current: true });
        }
        match create_screen(st, Vec::new()) {
            Ok(screen) => {
                let leaving = self.current_screen.screen_type();
                self.navigation_stack.push(leaving);
                self.current_screen = screen;
                self.animation_state.trigger_transition();
                if matches!(variant, ScreenTypeVariant::ClassSelection) {
                    Some(Effect::RefreshClasses)
                } else {
                    None
                }
            },
            Err(_) => None,
        }
    }

    /// Pop the back-stack and return to the screen that was left. A
    /// data-bearing screen is rebuilt with fresh data (its student list
    /// is re-read first; the class list is refreshed on arrival), so
    /// nothing goes stale across navigation. With nothing to return to,
    /// the application quits.
    pub fn go_back(&mut self) -> (eff: Option<Effect>)
        requires
            old(self).wf(),
        ensures
            final(self).wf(),
            old(self).navigation_stack@.len() == 0 ==> {
                &&& final(self).should_quit
                &&& final(self).current_screen == old(self).current_screen
                &&& final(self).navigation_stack@ == old(self).navigation_stack@
                &&& eff is None
            },
            old(self).navigation_stack@.len() > 0 ==> {
                let prev = old(self).navigation_stack@.last();
                &&& final(self).navigation_stack@ == old(self).navigation_stack@.drop_last()
                &&& final(self).should_quit == old(self).should_quit
                &&& (prev.context matches Some(ScreenContext::Class(c)) ==> ((
                !unimplemented_variant(prev.variant) && needs_students(prev.variant)) ==> {
                    &&& final(self).state.loading
                    &&& eff == Some(
                        Effect::LoadStudents {
                            target: prev.variant,
                            class: c,
                            push_current: false,
                        },
                    )
                    &&& final(self).current_screen == old(self).current_screen
                }))
                &&& (directly_buildable(prev) ==> {
                    &&& final(self).current_screen.variant_of() == prev.variant
                    &&& final(self).animation_state.transition_progress == old(self).animation_state.transition_progress.animate_to_spec(
                        crate::easing::EASE_SCALE,
                        300,
                        crate::easing::EasingFunction::EaseInOut,
                    )
                    &&& eff == (if prev.variant is ClassSelection {
                        Some(Effect::RefreshClasses)
                    } else {
                        None::<Effect>
                    })
                })
                &&& (!unimplemented_variant(prev.variant) && requires_context(prev.variant) && !(
                prev.context matches Some(ScreenContext::Class(_))) ==> {
                    &&& final(self).state.banner is Some
                    &&& final(self).current_screen == old(self).current_screen
                    &&& eff is None
                })
            },
    {
        let popped = self.navigation_stack.pop();
        match popped {
            None => {
                self.should_quit = true;
                None
            },
            Some(prev) => {
                let variant = *prev.variant();
                let wants_students = match variant {
                    ScreenTypeVariant::DeleteStudent => true,
                    ScreenTypeVariant::RepositoryManagement => true,
                    ScreenTypeVariant::WeekView => true,
                    ScreenTypeVariant::LatestActivity => true,
                    _ => false,
                };
                let has_class_ctx = match prev.context() {
                    Some(ScreenContext::Class(_)) => true,
                    _ => false,
                };
                if wants_students && has_class_ctx {
                    let class = match prev.context() {
                        Some(ScreenContext::Class(c)) => c.clone(),
                        _ => {
                            return None;
                        },
                    };
                    self.state.set_loading(true, "Loading students...".to_owned());
                    return Some(
                        Effect::LoadStudents { target: variant, class, push_current: false },
                    );
                }
                match create_screen(prev, Vec::new()) {
                    Ok(screen) => {
                        self.current_screen = screen;
                        self.animation_state.trigger_transition();
                        if matches!(variant, ScreenTypeVariant::ClassSelection) {
                            Some(Effect::RefreshClasses)
                        } else {
                            None
                        }
                    },
                    Err(e) => {
                        let v = match e {
                            ScreenError::MissingContext(v) => v,
                            ScreenError::NotImplemented(v) => v,
                        };
                        let mut m = String::new();
                        m.append("Cannot return to screen: ");
                        m.append(v.name());
                        self.state.set_error(Some(m));
                        None
                    },
                }
            },
        }
    }

    /// Advance the animation clock and the active screen by a frame
    /// delta.
    pub fn advance_frame(&mut self, delta_ms: u64)
        requires
            old(self).wf(),
            delta_ms <= crate::animation::TIME_LIMIT,
        ensures
            final(self).wf(),
            final(self).current_screen.variant_of() == old(self).current_screen.variant_of(),
            final(self).should_quit == old(self).should_quit,
            final(self).state == old(self).state,
            final(self).navigation_stack@ == old(self).navigation_stack@,
            old(self).animation_state.transition_progress.updated(
                final(self).animation_state.transition_progress,
                delta_ms,
            ),
    {
        self.animation_state.update(delta_ms);
        let anim = &self.animation_state;
        self.current_screen.update(delta_ms, anim);
    }

    pub fn should_quit(&self) -> (r: bool)
        ensures
            r == self.should_quit,
    {
        self.should_quit
    }
}


/// Where a navigation event actually goes: a class-scoped target picks up
/// the active class as its payload.
pub open spec fn attach_class_context(st: ScreenType, current_class: Option<Class>) -> ScreenType {
    match current_class {
        Some(c) => if st.variant is ClassManagement {
            ScreenType { variant: st.variant, context: Some(ScreenContext::Class(c)) }
        } else {
            st
        },
        None => st,
    }
}

pub open spec fn creating_class_message(name: Seq<char>) -> Seq<char> {
    "Creating class '"@ + name + "'..."@
}

pub open spec fn class_created_message(name: Seq<char>) -> Seq<char> {
    "Class '"@ + name + "' created successfully!"@
}

pub open spec fn repo_loading_message(op: RepoOp, user: Seq<char>) -> Seq<char> {
    match op {
        RepoOp::Clone => "Cloning repository for "@ + user + "..."@,
        RepoOp::Pull => "Pulling latest changes for "@ + user + "..."@,
        RepoOp::Clean => "Cleaning repository for "@ + user + "..."@,
        RepoOp::OpenTerminal => Seq::empty(),
    }
}

pub open spec fn repo_ok_message(op: RepoOp, user: Seq<char>) -> Seq<char> {
    match op {
        RepoOp::Clone => "Successfully cloned repository for "@ + user,
        RepoOp::Pull => "Successfully pulled latest changes for "@ + user,
        RepoOp::Clean => "Successfully cleaned repository for "@ + user,
        RepoOp::OpenTerminal => "Opened terminal for "@ + user + "'s repository"@,
    }
}

pub open spec fn repo_err_message(op: RepoOp, user: Seq<char>, error: Seq<char>) -> Seq<char> {
    match op {
        RepoOp::Clone => "Failed to clone repository for "@ + user + ": "@ + error,
        RepoOp::Pull => "Failed to pull repository for "@ + user + ": "@ + error,
        RepoOp::Clean => "Failed to clean repository for "@ + user + ": "@ + error,
        RepoOp::OpenTerminal => "Failed to open terminal for "@ + user + ": "@ + error,
    }
}

pub open spec fn cloning_all_message(class_name: Seq<char>) -> Seq<char> {
    "Cloning all repositories for "@ + class_name + "..."@
}

/// Lines joined with newlines.
pub open spec fn join_lines(lines: Seq<Seq<char>>) -> Seq<char>
    decreases lines.len(),
{
    if lines.len() == 0 {
        Seq::empty()
    } else {
        join_lines(lines.drop_last()) + (if lines.len() > 1 {
            "\n"@
        } else {
            Seq::<char>::empty()
        }) + lines.last()
    }
}

/// What a finished batch clone reports: a plain success count when
/// nothing failed, otherwise the count of each with one line naming every
/// failure — so no student's outcome is hidden by another's.
pub open spec fn clone_batch_message(successes: int, failures: Seq<Seq<char>>) -> Seq<char> {
    if failures.len() == 0 {
        "Successfully cloned "@ + dec_str(successes as nat) + " repositories"@
    } else if successes > 0 {
        "Cloned "@ + dec_str(successes as nat) + " repositories\nFailed to clone "@ + dec_str(
            failures.len(),
        ) + " repositories:\n"@ + join_lines(failures)
    } else {
        "Failed to clone repositories:\n"@ + join_lines(failures)
    }
}

/// Join failure lines with newlines.
fn join_lines_exec(lines: &Vec<String>) -> (r: String)
    ensures
        r@ == join_lines(Seq::new(lines@.len(), |i: int| lines@[i]@)),
{
    let ghost view = Seq::new(lines@.len(), |i: int| lines@[i]@);
    let mut out = String::new();
    let mut i: usize = 0;
    proof {
        assert(view.take(0) =~= Seq::<Seq<char>>::empty());
    }
    while i < lines.len()
        invariant
            i <= lines@.len(),
            view.len() == lines@.len(),
            forall|j: int| 0 <= j < lines@.len() ==> view[j] == lines@[j]@,
            out@ == join_lines(view.take(i as int)),
        decreases lines@.len() - i,
    {
        proof {
            assert(view.take(i + 1).drop_last() =~= view.take(i as int));
            assert(view.take(i + 1).last() == view[i as int]);
        }
        if i > 0 {
            out.append("\n");
        }
        out.append(lines[i].as_str());
        i = i + 1;
    }
    proof {
        assert(view.take(view.len() as int) =~= view);
    }
    out
}

impl App {
    /// Interpret one high-level event: mutate the context, move between
    /// screens, and hand back the one piece of outside work the event
    /// asks for, if any.
    /// How one event steps the whole application and which effect it
    /// asks for: one clause per event kind. [`Self::dispatch`] ensures
    /// exactly this relation.
    pub open spec fn dispatch_rel(pre: App, event: AppEvent, post: App, eff: Option<
        Effect,
    >) -> bool {
        &&& (event matches AppEvent::NavigateToScreen(st) ==> {
                        let st2 = attach_class_context(st, pre.state.current_class);
                        &&& (directly_buildable(st2) ==> post.current_screen.variant_of()
                            == st2.variant && post.navigation_stack@ == pre.navigation_stack@.push(pre.current_screen.screen_type_spec()))
                        &&& (unimplemented_variant(st2.variant) || (requires_context(st2.variant) && !(
                        st2.context matches Some(ScreenContext::Class(_)))) ==> post.state.banner is Some && post.current_screen == pre.current_screen)
                        &&& (st2.context matches Some(ScreenContext::Class(c)) ==> ((
                        !unimplemented_variant(st2.variant) && needs_students(st2.variant)) ==> post.state.loading && eff == Some(
                            Effect::LoadStudents { target: st2.variant, class: c, push_current: true },
                        )))
                    })
        &&& (event is GoBack ==> {
                        &&& (pre.navigation_stack@.len() == 0 ==> post.should_quit)
                        &&& (pre.navigation_stack@.len() > 0 ==> post.navigation_stack@
                            == pre.navigation_stack@.drop_last())
                    })
        &&& (event is Quit ==> post.should_quit && eff is None && post.state == pre.state)
        &&& (event matches AppEvent::ShowLoading(m) ==> post.state.loading && post.state.loading_message == m && eff is None)
        &&& (event is HideLoading ==> !post.state.loading && eff is None)
        &&& (event matches AppEvent::ShowError(e) ==> post.state.banner == Some(
                        Banner::Error(e),
                    ) && eff is None)
        &&& (event is ClearError ==> post.state.banner is None && eff is None)
        &&& (event matches AppEvent::ShowSuccess(m) ==> post.state.banner == Some(
                        Banner::Success(m),
                    ) && eff is None)
        &&& (event matches AppEvent::SelectClass(class) ==> {
                        &&& post.state.current_class == Some(class)
                        &&& post.current_screen.variant_of() == ScreenTypeVariant::ClassManagement
                        &&& post.navigation_stack@ == pre.navigation_stack@.push(
                            pre.current_screen.screen_type_spec(),
                        )
                        &&& post.animation_state.transition_progress == pre.animation_state.transition_progress.animate_to_spec(
                            crate::easing::EASE_SCALE,
                            300,
                            crate::easing::EasingFunction::EaseInOut,
                        )
                        &&& eff is None
                    })
        &&& (event matches AppEvent::ClassCreated(class) ==> {
                        &&& post.state.loading
                        &&& post.state.loading_message@ == creating_class_message(class.name@)
                        &&& eff matches Some(Effect::CreateClass { name }) && name@ == class.name@
                    })
        &&& (event matches AppEvent::StudentDeleted(id) ==> eff == Some(
                        Effect::DeleteStudent { id },
                    ))
        &&& (event matches AppEvent::SubmitStudents { class_id, usernames } ==> {
                        &&& post.state.loading
                        &&& eff == Some(Effect::AddStudents { class_id, usernames })
                    })
        &&& (event matches AppEvent::CloneRepo(user) ==> {
                        &&& (pre.state.current_class matches Some(cl) ==> post.state.loading
                            && post.state.loading_message@ == repo_loading_message(
                            RepoOp::Clone,
                            user@,
                        ) && (eff matches Some(Effect::RunRepoOp { op, github_username, class_name })
                            && op is Clone && github_username@ == user@ && class_name@ == cl.name@))
                        &&& (pre.state.current_class is None ==> eff is None)
                    })
        &&& (event matches AppEvent::PullRepo(user) ==> {
                        &&& (pre.state.current_class matches Some(cl) ==> post.state.loading
                            && (eff matches Some(Effect::RunRepoOp { op, github_username, class_name })
                            && op is Pull && github_username@ == user@ && class_name@ == cl.name@))
                        &&& (pre.state.current_class is None ==> eff is None)
                    })
        &&& (event matches AppEvent::CleanRepo(user) ==> {
                        &&& (pre.state.current_class matches Some(cl) ==> post.state.loading
                            && (eff matches Some(Effect::RunRepoOp { op, github_username, class_name })
                            && op is Clean && github_username@ == user@ && class_name@ == cl.name@))
                        &&& (pre.state.current_class is None ==> eff is None)
                    })
        &&& (event matches AppEvent::OpenInTerminal(user) ==> {
                        &&& (pre.state.current_class matches Some(cl) ==> (eff matches Some(
                            Effect::RunRepoOp { op, github_username, class_name },
                        ) && op is OpenTerminal && github_username@ == user@ && class_name@ == cl.name@))
                        &&& (pre.state.current_class is None ==> eff is None)
                    })
        &&& (event is CloneAllRepos ==> {
                        &&& (pre.state.current_class matches Some(cl) ==> post.state.loading
                            && post.state.loading_message@ == cloning_all_message(cl.name@) && (
                        eff matches Some(Effect::CloneAll { class_id, class_name }) && class_id == cl.id
                            && class_name@ == cl.name@))
                        &&& (pre.state.current_class is None ==> eff is None)
                    })
        &&& (event is ShowWeekView ==> {
                        &&& (pre.state.current_class matches Some(cl) ==> post.state.loading
                            && eff == Some(
                            Effect::LoadStudents {
                                target: ScreenTypeVariant::WeekView,
                                class: cl,
                                push_current: true,
                            },
                        ))
                        &&& (pre.state.current_class is None ==> eff is None)
                    })
        &&& (event is ShowLatestActivity ==> {
                        &&& (pre.state.current_class matches Some(cl) ==> post.state.loading
                            && eff == Some(
                            Effect::LoadStudents {
                                target: ScreenTypeVariant::LatestActivity,
                                class: cl,
                                push_current: true,
                            },
                        ))
                        &&& (pre.state.current_class is None ==> post.state.banner is Some
                            && eff is None)
                    })
        &&& (event is RefreshLatestActivity ==> post.state.loading && eff == Some(
                        Effect::LoadLatestActivity,
                    ))
        &&& (event is RefreshData ==> {
                        &&& (pre.current_screen is ClassSelection ==> eff == Some(
                            Effect::RefreshClasses,
                        ))
                        &&& (pre.current_screen is WeekView ==> post.state.loading && eff
                            == Some(Effect::LoadWeekActivity))
                        &&& (!(pre.current_screen is ClassSelection) && !(pre.current_screen is WeekView) ==> eff is None)
                    })
        &&& ((event is ClassDeleted || event is StudentAdded || event is CloneRepositories
                        || event is PullRepositories || event is CleanRepositories
                        || event is FetchGitHubActivity) ==> eff is None && post.state == pre.state)
    }

    pub fn dispatch(&mut self, event: AppEvent) -> (eff: Option<Effect>)
        requires
            old(self).wf(),
        ensures
            final(self).wf(),
            App::dispatch_rel(*old(self), event, *final(self), eff),
    {
        match event {
            AppEvent::NavigateToScreen(st) => {
                let needs_class = matches!(st.variant(), ScreenTypeVariant::ClassManagement);
                let st2 = if needs_class {
                    match &self.state.current_class {
                        Some(class) => st.with_context(ScreenContext::Class(class.clone())),
                        None => st,
                    }
                } else {
                    st
                };
                self.navigate_to(st2)
            },
            AppEvent::GoBack => self.go_back(),
            AppEvent::Quit => {
                self.should_quit = true;
                None
            },
            AppEvent::ShowLoading(message) => {
                self.state.set_loading(true, message);
                None
            },
            AppEvent::HideLoading => {
                self.state.set_loading(false, String::new());
                None
            },
            AppEvent::ShowError(error) => {
                self.state.set_error(Some(error));
                None
            },
            AppEvent::ClearError => {
                self.state.set_error(None);
                None
            },
            AppEvent::ShowSuccess(message) => {
                self.state.set_success(message);
                None
            },
            AppEvent::SelectClass(class) => {
                self.state.current_class = Some(class.clone());
                self.navigate_to(
                    ScreenType::new(ScreenTypeVariant::ClassManagement).with_context(
                        ScreenContext::Class(class),
                    ),
                )
            },
            AppEvent::ClassCreated(class) => {
                let mut m = String::new();
                m.append("Creating class '");
                m.append(class.name.as_str());
                m.append("'...");
                self.state.set_loading(true, m);
                Some(Effect::CreateClass { name: class.name })
            },
            AppEvent::ClassDeleted(_) => None,
            AppEvent::StudentAdded(_) => None,
            AppEvent::StudentDeleted(id) => Some(Effect::DeleteStudent { id }),
            AppEvent::SubmitStudents { class_id, usernames } => {
                self.state.set_loading(true, "Adding students...".to_owned());
                Some(Effect::AddStudents { class_id, usernames })
            },
            AppEvent::CloneRepositories => None,
            AppEvent::PullRepositories => None,
            AppEvent::CleanRepositories => None,
            AppEvent::CloneRepo(user) => self.start_repo_op(RepoOp::Clone, user),
            AppEvent::PullRepo(user) => self.start_repo_op(RepoOp::Pull, user),
            AppEvent::CleanRepo(user) => self.start_repo_op(RepoOp::Clean, user),
            AppEvent::OpenInTerminal(user) => self.start_repo_op(RepoOp::OpenTerminal, user),
            AppEvent::CloneAllRepos => {
                match &self.state.current_class {
                    Some(class) => {
                        let class_id = class.id;
                        let class_name = class.name.clone();
                        let mut m = String::new();
                        m.append("Cloning all repositories for ");
                        m.append(class_name.as_str());
                        m.append("...");
                        self.state.set_loading(true, m);
                        Some(Effect::CloneAll { class_id, class_name })
                    },
                    None => None,
                }
            },
            AppEvent::FetchGitHubActivity => None,
            AppEvent::ShowWeekView => {
                match &self.state.current_class {
                    Some(class) => {
                        let class = class.clone();
                        self.state.set_loading(
                            true,
                            "Loading GitHub activity data...".to_owned(),
                        );
                        Some(
                            Effect::LoadStudents {
                                target: ScreenTypeVariant::WeekView,
                                class,
                                push_current: true,
                            },
                        )
                    },
                    None => None,
                }
            },
            AppEvent::ShowLatestActivity => {
                match &self.state.current_class {
                    Some(class) => {
                        let class = class.clone();
                        self.state.set_loading(true, "Loading latest activity...".to_owned());
                        Some(
                            Effect::LoadStudents {
                                target: ScreenTypeVariant::LatestActivity,
                                class,
                                push_current: true,
                            },
                        )
                    },
                    None => {
                        self.state.set_error(Some("No class selected".to_owned()));
                        None
                    },
                }
            },
            AppEvent::RefreshLatestActivity => {
                self.state.set_loading(true, "Refreshing latest activity data...".to_owned());
                Some(Effect::LoadLatestActivity)
            },
            AppEvent::RefreshData => {
                match &self.current_screen {
                    ScreenModel::ClassSelection(_) => Some(Effect::RefreshClasses),
                    ScreenModel::WeekView(_) => {
                        self.state.set_loading(
                            true,
                            "Refreshing GitHub activity data...".to_owned(),
                        );
                        Some(Effect::LoadWeekActivity)
                    },
                    _ => None,
                }
            },
        }
    }

    /// Begin one repository operation for one student of the active
    /// class; without an active class nothing happens.
    fn start_repo_op(&mut self, op: RepoOp, user: String) -> (eff: Option<Effect>)
        requires
            old(self).wf(),
        ensures
            final(self).wf(),
            final(self).current_screen == old(self).current_screen,
            final(self).navigation_stack@ == old(self).navigation_stack@,
            final(self).should_quit == old(self).should_quit,
            old(self).state.current_class matches Some(cl) ==> {
                &&& (!(op is OpenTerminal) ==> final(self).state.loading && final(self).state.loading_message@ == repo_loading_message(op, user@))
                &&& eff matches Some(Effect::RunRepoOp { op: o, github_username, class_name })
                    && o == op && github_username@ == user@ && class_name@ == cl.name@
            },
            old(self).state.current_class is None ==> eff is None && final(self).state == old(self).state,
    {
        match &self.state.current_class {
            Some(class) => {
                let class_name = class.name.clone();
                match op {
                    RepoOp::Clone => {
                        let mut m = String::new();
                        m.append("Cloning repository for ");
                        m.append(user.as_str());
                        m.append("...");
                        self.state.set_loading(true, m);
                    },
                    RepoOp::Pull => {
                        let mut m = String::new();
                        m.append("Pulling latest changes for ");
                        m.append(user.as_str());
                        m.append("...");
                        self.state.set_loading(true, m);
                    },
                    RepoOp::Clean => {
                        let mut m = String::new();
                        m.append("Cleaning repository for ");
                        m.append(user.as_str());
                        m.append("...");
                        self.state.set_loading(true, m);
                    },
                    RepoOp::OpenTerminal => {},
                }
                Some(Effect::RunRepoOp { op, github_username: user, class_name })
            },
            None => None,
        }
    }

    /// Fold the outcome of one piece of outside work back into the
    /// state: clear the loading banner, then show the success or the
    /// failure, swap in a screen that was waiting for its data, and chain
    /// the follow-up fetch where one is owed. A loading banner never
    /// outlives the work it announced.
    pub fn handle_completion(&mut self, completion: Completion) -> (eff: Option<Effect>)
        requires
            old(self).wf(),
            completion matches Completion::ClassesLoaded(classes) ==> classes@.len() + 2
                <= MENU_LIMIT,
            completion matches Completion::StudentsLoaded { students, .. } ==> students@.len()
                < 1000000000,
            completion matches Completion::CloneAllDone { results } ==> results@.len()
                < 1000000000,
            completion matches Completion::WeekActivityLoaded(acts) ==> acts@.len() < 1000000000,
        ensures
            final(self).wf(),
            completion matches Completion::ClassesLoaded(classes) ==> {
                &&& (old(self).current_screen matches ScreenModel::ClassSelection(_) ==> final(self).current_screen matches ScreenModel::ClassSelection(s) && s.classes == classes
                    && !s.loading)
                &&& eff is None
            },
            completion matches Completion::ClassesFailed(m) ==> {
                &&& eff is None
                &&& (old(self).current_screen matches ScreenModel::ClassSelection(_) ==> (final(self).current_screen matches ScreenModel::ClassSelection(s) && s.error matches Some(e)
                    && e@ == "Failed to load classes: "@ + m@ && !s.loading))
                &&& (!(old(self).current_screen is ClassSelection) ==> (final(self).state.banner matches Some(Banner::Error(e)) && e@
                    == "Failed to refresh classes: "@ + m@))
            },
            completion matches Completion::ClassCreated(class) ==> {
                &&& !final(self).state.loading
                &&& final(self).state.banner matches Some(Banner::Success(m)) && m@
                    == class_created_message(class.name@)
                &&& final(self).current_screen.variant_of() == ScreenTypeVariant::ClassSelection
                &&& final(self).animation_state.success_celebration is Some
                &&& eff == Some(Effect::RefreshClasses)
            },
            completion matches Completion::ClassCreateFailed { name, message } ==> {
                &&& !final(self).state.loading
                &&& final(self).state.banner matches Some(Banner::Error(m)) && m@
                    == "Failed to create class: "@ + message@
                &&& final(self).current_screen is CreateClass
                &&& eff is None
            },
            completion matches Completion::StudentsLoaded { target, class, students, push_current }
                ==> {
                &&& final(self).current_screen.variant_of() == target || !(
                needs_students(target) && !unimplemented_variant(target))
                &&& (push_current && needs_students(target) ==> final(self).navigation_stack@
                    == old(self).navigation_stack@.push(
                    old(self).current_screen.screen_type_spec(),
                ))
                &&& (!push_current ==> final(self).navigation_stack@ == old(self).navigation_stack@)
                &&& (target is WeekView ==> eff == Some(Effect::LoadWeekActivity))
                &&& (target is LatestActivity ==> eff == Some(Effect::LoadLatestActivity))
                &&& (target is DeleteStudent || target is RepositoryManagement ==> !final(self).state.loading && eff is None)
            },
            completion matches Completion::StudentsFailed(m) ==> (!final(self).state.loading
                && (final(self).state.banner matches Some(Banner::Error(e)) && e@
                == "Failed to get students: "@ + m@) && eff is None),
            completion is StudentsAdded || completion is StudentDeleted ==> {
                &&& (old(self).navigation_stack@.len() == 0 ==> final(self).should_quit)
                &&& (old(self).navigation_stack@.len() > 0 ==> final(self).navigation_stack@
                    == old(self).navigation_stack@.drop_last())
            },
            completion matches Completion::RepoOpDone { op, github_username, result } ==> {
                &&& !final(self).state.loading
                &&& (result matches Ok(_) ==> final(self).state.banner matches Some(
                    Banner::Success(m),
                ) && m@ == repo_ok_message(op, github_username@))
                &&& (result matches Err(e) ==> final(self).state.banner matches Some(
                    Banner::Error(m),
                ) && m@ == repo_err_message(op, github_username@, e@))
                &&& eff is None
            },
            completion matches Completion::CloneAllDone { results } ==> {
                &&& !final(self).state.loading
                &&& (results@.len() == 0 ==> (final(self).state.banner matches Some(
                    Banner::Error(m),
                ) && m@ == "No students found in this class."@))
                &&& (results@.len() > 0 && failure_lines(results@).len() == 0 ==> (final(self).state.banner matches Some(Banner::Success(m)) && m@ == clone_batch_message(
                    ok_count(results@),
                    failure_lines(results@),
                )))
                &&& (results@.len() > 0 && failure_lines(results@).len() > 0 ==> (final(self).state.banner matches Some(Banner::Error(m)) && m@ == clone_batch_message(
                    ok_count(results@),
                    failure_lines(results@),
                )))
                &&& eff is None
            },
            completion matches Completion::CloneAllFailed(m) ==> (!final(self).state.loading
                && (final(self).state.banner matches Some(Banner::Error(e)) && e@
                == "Failed to clone repositories: "@ + m@) && eff is None),
            completion matches Completion::WeekActivityLoaded(acts) ==> {
                &&& !final(self).state.loading
                &&& (old(self).current_screen matches ScreenModel::WeekView(_) ==> final(self).current_screen matches ScreenModel::WeekView(s) && s.activities == acts)
                &&& eff is None
            },
            completion matches Completion::LatestActivityLoaded(data) ==> {
                &&& !final(self).state.loading
                &&& (old(self).current_screen matches ScreenModel::LatestActivity(_) ==> final(self).current_screen matches ScreenModel::LatestActivity(s)
                    && s.latest_activity_data == data)
                &&& eff is None
            },
    {
        match completion {
            Completion::ClassesLoaded(classes) => {
                match &mut self.current_screen {
                    ScreenModel::ClassSelection(s) => {
                        s.set_classes(classes);
                    },
                    _ => {},
                }
                None
            },
            Completion::ClassesFailed(message) => {
                match &mut self.current_screen {
                    ScreenModel::ClassSelection(s) => {
                        let mut m = String::new();
                        m.append("Failed to load classes: ");
                        m.append(message.as_str());
                        s.set_error(m);
                    },
                    _ => {
                        let mut m = String::new();
                        m.append("Failed to refresh classes: ");
                        m.append(message.as_str());
                        self.state.set_error(Some(m));
                    },
                }
                None
            },
            Completion::ClassCreated(class) => {
                self.state.set_loading(false, String::new());
                self.animation_state.trigger_success_celebration();
                let leaving = self.current_screen.screen_type();
                self.navigation_stack.push(leaving);
                match create_screen(
                    ScreenType::new(ScreenTypeVariant::ClassSelection),
                    Vec::new(),
                ) {
                    Ok(screen) => {
                        self.current_screen = screen;
                    },
                    Err(_) => {},
                }
                self.animation_state.trigger_transition();
                let mut m = String::new();
                m.append("Class '");
                m.append(class.name.as_str());
                m.append("' created successfully!");
                self.state.set_success(m);
                Some(Effect::RefreshClasses)
            },
            Completion::ClassCreateFailed { name: _, message } => {
                self.state.set_loading(false, String::new());
                let mut m = String::new();
                m.append("Failed to create class: ");
                m.append(message.as_str());
                self.state.set_error(Some(m));
                self.current_screen = ScreenModel::CreateClass(
                    crate::screens::CreateClassScreen::new(),
                );
                None
            },
            Completion::StudentsLoaded { target, class, students, push_current } => {
                let wants = match target {
                    ScreenTypeVariant::DeleteStudent => true,
                    ScreenTypeVariant::RepositoryManagement => true,
                    ScreenTypeVariant::WeekView => true,
                    ScreenTypeVariant::LatestActivity => true,
                    _ => false,
                };
                if !wants {
                    return None;
                }
                let st = ScreenType::new(target).with_context(ScreenContext::Class(class));
                match create_screen(st, students) {
                    Ok(screen) => {
                        if push_current {
                            let leaving = self.current_screen.screen_type();
                            self.navigation_stack.push(leaving);
                        }
                        self.current_screen = screen;
                        self.animation_state.trigger_transition();
                    },
                    Err(_) => {
                        if push_current {
                            let leaving = self.current_screen.screen_type();
                            self.navigation_stack.push(leaving);
                        }
                    },
                }
                match target {
                    ScreenTypeVariant::WeekView => {
                        match &mut self.current_screen {
                            ScreenModel::WeekView(s) => {
                                s.set_loading();
                            },
                            _ => {},
                        }
                        Some(Effect::LoadWeekActivity)
                    },
                    ScreenTypeVariant::LatestActivity => Some(Effect::LoadLatestActivity),
                    _ => {
                        self.state.set_loading(false, String::new());
                        None
                    },
                }
            },
            Completion::StudentsFailed(message) => {
                self.state.set_loading(false, String::new());
                let mut m = String::new();
                m.append("Failed to get students: ");
                m.append(message.as_str());
                self.state.set_error(Some(m));
                None
            },
            Completion::StudentsAdded => {
                self.state.set_loading(false, String::new());
                self.go_back()
            },
            Completion::StudentDeleted => {
                self.state.set_loading(false, String::new());
                self.go_back()
            },
            Completion::RepoOpDone { op, github_username, result } => {
                self.state.set_loading(false, String::new());
                match result {
                    Ok(_) => {
                        let mut m = String::new();
                        match op {
                            RepoOp::Clone => {
                                m.append("Successfully cloned repository for ");
                                m.append(github_username.as_str());
                            },
                            RepoOp::Pull => {
                                m.append("Successfully pulled latest changes for ");
                                m.append(github_username.as_str());
                            },
                            RepoOp::Clean => {
                                m.append("Successfully cleaned repository for ");
                                m.append(github_username.as_str());
                            },
                            RepoOp::OpenTerminal => {
                                m.append("Opened terminal for ");
                                m.append(github_username.as_str());
                                m.append("'s repository");
                            },
                        }
                        self.state.set_success(m);
                    },
                    Err(e) => {
                        let mut m = String::new();
                        match op {
                            RepoOp::Clone => {
                                m.append("Failed to clone repository for ");
                            },
                            RepoOp::Pull => {
                                m.append("Failed to pull repository for ");
                            },
                            RepoOp::Clean => {
                                m.append("Failed to clean repository for ");
                            },
                            RepoOp::OpenTerminal => {
                                m.append("Failed to open terminal for ");
                            },
                        }
                        m.append(github_username.as_str());
                        m.append(": ");
                        m.append(e.as_str());
                        self.state.set_error(Some(m));
                    },
                }
                None
            },
            Completion::CloneAllDone { results } => {
                self.state.set_loading(false, String::new());
                if results.len() == 0 {
                    self.state.set_error(Some("No students found in this class.".to_owned()));
                    return None;
                }
                let summary = summarize_clone_results(&results);
                let successes_text = u64_to_string(summary.successes);
                if summary.failures.len() == 0 {
                    let mut m = String::new();
                    m.append("Successfully cloned ");
                    m.append(successes_text.as_str());
                    m.append(" repositories");
                    proof {
                        assert(Seq::new(
                            summary.failures@.len(),
                            |i: int| summary.failures@[i]@,
                        ) =~= failure_lines(results@));
                    }
                    self.state.set_success(m);
                } else {
                    let joined = join_lines_exec(&summary.failures);
                    proof {
                        assert(Seq::new(
                            summary.failures@.len(),
                            |i: int| summary.failures@[i]@,
                        ) =~= failure_lines(results@));
                    }
                    let mut m = String::new();
                    if summary.successes > 0 {
                        let failures_text = u64_to_string(summary.failures.len() as u64);
                        m.append("Cloned ");
                        m.append(successes_text.as_str());
                        m.append(" repositories\nFailed to clone ");
                        m.append(failures_text.as_str());
                        m.append(" repositories:\n");
                        m.append(joined.as_str());
                    } else {
                        m.append("Failed to clone repositories:\n");
                        m.append(joined.as_str());
                    }
                    self.state.set_error(Some(m));
                }
                None
            },
            Completion::CloneAllFailed(message) => {
                self.state.set_loading(false, String::new());
                let mut m = String::new();
                m.append("Failed to clone repositories: ");
                m.append(message.as_str());
                self.state.set_error(Some(m));
                None
            },
            Completion::WeekActivityLoaded(activities) => {
                self.state.set_loading(false, String::new());
                match &mut self.current_screen {
                    ScreenModel::WeekView(s) => {
                        s.set_activities(activities);
                    },
                    _ => {},
                }
                None
            },
            Completion::LatestActivityLoaded(data) => {
                self.state.set_loading(false, String::new());
                match &mut self.current_screen {
                    ScreenModel::LatestActivity(s) => {
                        s.set_activity_data(data);
                    },
                    _ => {},
                }
                None
            },
            Completion::LatestActivityFailed(message) => {
                self.state.set_loading(false, String::new());
                match &mut self.current_screen {
                    ScreenModel::LatestActivity(s) => {
                        let mut m = String::new();
                        m.append("Failed to load activity data: ");
                        m.append(message.as_str());
                        s.set_error(m);
                    },
                    _ => {},
                }
                None
            },
        }
    }
}

} // verus!
