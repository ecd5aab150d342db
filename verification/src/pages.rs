//! The two HTML pages that the site serves.
use vstd::prelude::*;

verus! {

/// The pages, read once when the server starts.
pub struct PageStore {
    pub login_page: String,
    pub main_page: String,
}

impl PageStore {
    pub fn new(login_page: String, main_page: String) -> (r: Self)
        ensures
            r == (PageStore { login_page, main_page }),
    {
        PageStore { login_page, main_page }
    }
}

} // verus!
