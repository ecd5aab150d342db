//! The entry page: the site itself for a signed-in user, the login page for
//! anyone else.
use vstd::prelude::*;

use crate::flow::{Action, Event};
use crate::models::User;
use crate::pages::PageStore;

verus! {

/// Chooses the page to serve once the request's session is checked.
pub enum Render {
    AwaitUser { login_page: String, main_page: String },
    Done,
}

impl Render {
    /// A finished machine takes no further event.
    pub open spec fn admits(&self, e: &Event) -> bool {
        self is AwaitUser
    }

    pub fn accepts(&self, e: &Event) -> (r: bool)
        ensures
            r == self.admits(e),
    {
        matches!(self, Render::AwaitUser { .. })
    }

    /// A valid session gets the main page; a missing or invalid one, or any
    /// other answer, the login page.
    pub open spec fn next(self, e: Event) -> (Render, Action<String>) {
        match self {
            Render::AwaitUser { login_page, main_page } => match e {
                Event::Authenticated(Some(_)) => (Render::Done, Action::Finish(main_page)),
                _ => (Render::Done, Action::Finish(login_page)),
            },
            Render::Done => (Render::Done, Action::Authenticate),
        }
    }

    pub fn step(self, e: Event) -> (r: (Render, Action<String>))
        requires
            self.admits(&e),
        ensures
            r == self.next(e),
    {
        match self {
            Render::AwaitUser { login_page, main_page } => match e {
                Event::Authenticated(Some(_)) => (Render::Done, Action::Finish(main_page)),
                _ => (Render::Done, Action::Finish(login_page)),
            },
            Render::Done => {
                proof {
                    assert(false);
                }
                (Render::Done, Action::Authenticate)
            },
        }
    }
}

/// Starts serving the entry page from `page_store`.
pub fn render(page_store: &PageStore) -> (r: (Render, Action<String>))
    ensures
        r == (
            Render::AwaitUser { login_page: page_store.login_page, main_page: page_store.main_page },
            Action::<String>::Authenticate,
        ),
{
    (
        Render::AwaitUser { login_page: page_store.login_page.clone(), main_page: page_store.main_page.clone() },
        Action::Authenticate,
    )
}

/// A signed-in request gets the main page and any other the login page.
pub proof fn law_signed_in_users_get_the_main_page(login_page: String, main_page: String, u: User, e: Event)
    requires
        !(e is Authenticated && e->Authenticated_0 is Some),
    ensures
        (Render::AwaitUser { login_page, main_page }).next(Event::Authenticated(Some(u))).1 == Action::<String>::Finish(
            main_page,
        ),
        (Render::AwaitUser { login_page, main_page }).next(e).1 == Action::<String>::Finish(login_page),
{
}

} // verus!
