//! Process-wide mutable context: the active class selection, the loading
//! flag and its message, the transient banner, and the back-stack of
//! screen identities.

use vstd::prelude::*;
use crate::gitops::GitManager;
use crate::models::Class;
use crate::screen::ScreenType;

verus! {

/// A transient overlay message. An error and a success are distinct
/// variants, not one string told apart by a marker glyph.
#[derive(Debug)]
pub enum Banner {
    Error(String),
    Success(String),
}

impl Clone for Banner {
    fn clone(&self) -> (r: Banner)
        ensures
            r == *self,
    {
        match self {
            Banner::Error(m) => Banner::Error(m.clone()),
            Banner::Success(m) => Banner::Success(m.clone()),
        }
    }
}

/// The text a banner shows, whichever kind it is.
pub open spec fn banner_message_spec(b: Banner) -> Seq<char> {
    match b {
        Banner::Error(m) => m@,
        Banner::Success(m) => m@,
    }
}

impl Banner {
    pub fn message(&self) -> (r: &String)
        ensures
            r@ == banner_message_spec(*self),
    {
        match self {
            Banner::Error(m) => m,
            Banner::Success(m) => m,
        }
    }
}

/// The application's mutable context, owned by the controller for the
/// life of the process.
#[derive(Debug)]
pub struct AppState {
    pub git_manager: GitManager,
    pub current_class: Option<Class>,
    pub loading: bool,
    pub loading_message: String,
    pub banner: Option<Banner>,
    pub github_token: Option<String>,
}

impl AppState {
    /// A fresh context rooted at the directory cloned repositories live
    /// in. Opening storage and preparing that directory on disk happen
    /// outside, before this runs.
    pub fn new(repos_dir: String) -> (r: AppState)
        ensures
            r.git_manager.repos_dir == repos_dir,
            r.current_class is None,
            !r.loading,
            r.loading_message@ == Seq::<char>::empty(),
            r.banner is None,
            r.github_token is None,
    {
        AppState {
            git_manager: GitManager::new(repos_dir),
            current_class: None,
            loading: false,
            loading_message: String::new(),
            banner: None,
            github_token: None,
        }
    }

    pub fn set_github_token(&mut self, token: Option<String>)
        ensures
            final(self).github_token == token,
            final(self).git_manager == old(self).git_manager,
            final(self).current_class == old(self).current_class,
            final(self).loading == old(self).loading,
            final(self).loading_message == old(self).loading_message,
            final(self).banner == old(self).banner,
    {
        self.github_token = token;
    }

    pub fn get_github_token(&self) -> (r: Option<&String>)
        ensures
            self.github_token matches Some(t) ==> r matches Some(u) && t == *u,
            self.github_token is None ==> r is None,
    {
        self.github_token.as_ref()
    }

    pub fn get_current_class(&self) -> (r: Option<&Class>)
        ensures
            self.current_class matches Some(c) ==> r matches Some(d) && c == *d,
            self.current_class is None ==> r is None,
    {
        self.current_class.as_ref()
    }

    pub fn set_loading(&mut self, loading: bool, message: String)
        ensures
            final(self).loading == loading,
            final(self).loading_message == message,
            final(self).git_manager == old(self).git_manager,
            final(self).current_class == old(self).current_class,
            final(self).banner == old(self).banner,
            final(self).github_token == old(self).github_token,
    {
        self.loading = loading;
        self.loading_message = message;
    }

    /// Show an error banner, or clear the banner.
    pub fn set_error(&mut self, error: Option<String>)
        ensures
            final(self).banner == match error {
                Some(m) => Some(Banner::Error(m)),
                None => None::<Banner>,
            },
            final(self).git_manager == old(self).git_manager,
            final(self).current_class == old(self).current_class,
            final(self).loading == old(self).loading,
            final(self).loading_message == old(self).loading_message,
            final(self).github_token == old(self).github_token,
    {
        self.banner = match error {
            Some(m) => Some(Banner::Error(m)),
            None => None,
        };
    }

    /// Show a success banner.
    pub fn set_success(&mut self, message: String)
        ensures
            final(self).banner == Some(Banner::Success(message)),
            final(self).git_manager == old(self).git_manager,
            final(self).current_class == old(self).current_class,
            final(self).loading == old(self).loading,
            final(self).loading_message == old(self).loading_message,
            final(self).github_token == old(self).github_token,
    {
        self.banner = Some(Banner::Success(message));
    }

    pub fn is_loading(&self) -> (r: bool)
        ensures
            r == self.loading,
    {
        self.loading
    }

    /// The loading message, shown only while something is in flight.
    pub fn loading_message(&self) -> (r: Option<&String>)
        ensures
            self.loading ==> (r matches Some(m) && m == &self.loading_message),
            !self.loading ==> r is None,
    {
        if self.loading {
            Some(&self.loading_message)
        } else {
            None
        }
    }

    /// The banner on display, if any.
    pub fn error(&self) -> (r: Option<&Banner>)
        ensures
            self.banner matches Some(b) ==> r matches Some(c) && b == *c,
            self.banner is None ==> r is None,
    {
        self.banner.as_ref()
    }

    pub fn has_banner(&self) -> (r: bool)
        ensures
            r == (self.banner is Some),
    {
        self.banner.is_some()
    }
}

/// The back-stack of screen identities, last in, first out. Every forward
/// navigation pushes the identity of the screen being left; going back
/// pops.
#[derive(Debug)]
pub struct NavigationStack {
    pub stack: Vec<ScreenType>,
}

impl NavigationStack {
    pub open spec fn view(self) -> Seq<ScreenType> {
        self.stack@
    }

    pub fn new() -> (r: NavigationStack)
        ensures
            r@.len() == 0,
    {
        NavigationStack { stack: Vec::new() }
    }

    pub fn push(&mut self, screen_type: ScreenType)
        ensures
            final(self)@ == old(self)@.push(screen_type),
    {
        self.stack.push(screen_type);
    }

    pub fn pop(&mut self) -> (r: Option<ScreenType>)
        ensures
            old(self)@.len() > 0 ==> r == Some(old(self)@.last()) && final(self)@ == old(
                self,
            )@.drop_last(),
            old(self)@.len() == 0 ==> r is None && final(self)@ == old(self)@,
    {
        self.stack.pop()
    }

    pub fn can_go_back(&self) -> (r: bool)
        ensures
            r == (self@.len() > 0),
    {
        self.stack.len() > 0
    }

    pub fn clear(&mut self)
        ensures
            final(self)@.len() == 0,
    {
        self.stack.clear();
    }
}

/// The stack is a strict last-in-first-out store: pushing two identities
/// and then popping twice yields the second, then the first, and a third
/// pop from what began empty yields nothing (so, by `pop`'s contract, it
/// returns `None` and leaves the stack as it is).
pub proof fn lemma_navigation_lifo(a: ScreenType, b: ScreenType)
    ensures
        Seq::<ScreenType>::empty().push(a).push(b).last() == b,
        Seq::<ScreenType>::empty().push(a).push(b).drop_last() == Seq::<ScreenType>::empty().push(
            a,
        ),
        Seq::<ScreenType>::empty().push(a).last() == a,
        Seq::<ScreenType>::empty().push(a).drop_last() == Seq::<ScreenType>::empty(),
        Seq::<ScreenType>::empty().len() == 0,
{
    let e = Seq::<ScreenType>::empty();
    assert(e.push(a).push(b).drop_last() =~= e.push(a));
    assert(e.push(a).drop_last() =~= e);
}

} // verus!
