//! The application keys attached to an authorization: which service and
//! application they were issued for, and the keys themselves, in the order
//! the response listed them.

use vstd::prelude::*;

verus! {

/// The keys of one application under one service.
#[derive(Debug, Clone, PartialEq, Eq)]
pub struct AppKeysList {
    service: String,
    app: String,
    keys: Vec<String>,
}

impl AppKeysList {
    pub closed spec fn spec_service(self) -> Seq<char> {
        self.service@
    }

    pub closed spec fn spec_app(self) -> Seq<char> {
        self.app@
    }

    pub closed spec fn spec_keys(self) -> Seq<Seq<char>> {
        self.keys.deep_view()
    }

    pub fn new(service: String, app: String, keys: Vec<String>) -> (r: AppKeysList)
        ensures
            r.spec_service() == service@,
            r.spec_app() == app@,
            r.spec_keys() == keys.deep_view(),
    {
        AppKeysList { service, app, keys }
    }

    /// The service the keys belong to.
    pub fn service(&self) -> (r: &str)
        ensures
            r@ == self.spec_service(),
    {
        self.service.as_str()
    }

    /// The application the keys belong to.
    pub fn app(&self) -> (r: &str)
        ensures
            r@ == self.spec_app(),
    {
        self.app.as_str()
    }

    /// The keys, in response order.
    pub fn keys(&self) -> (r: &Vec<String>)
        ensures
            r.deep_view() == self.spec_keys(),
    {
        &self.keys
    }
}

} // verus!
