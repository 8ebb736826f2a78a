//! The routes, and what protects each.
//!
//! A route is open, or asks for an authenticated caller, or asks for an
//! authenticated caller in one role. The tables here say which; the caller
//! mounts handlers and middleware after them.

use crate::store::text_view;
use vstd::prelude::*;

verus! {

/// The HTTP method of a route.
#[derive(Clone, Copy, Debug, PartialEq, Eq, Structural)]
pub enum Method {
    Get,
    Post,
    Patch,
    Delete,
}

/// One route.
#[derive(Debug)]
pub struct Route {
    pub method: Method,
    pub path: String,
    /// Whether the caller must be authenticated.
    pub authenticated: bool,
    /// The role the caller must have, if the route asks for one.
    pub required_role: Option<String>,
}

/// The mathematical value of a [`Route`].
pub struct RouteView {
    pub method: Method,
    pub path: Seq<char>,
    pub authenticated: bool,
    pub required_role: Option<Seq<char>>,
}

impl View for Route {
    type V = RouteView;

    open spec fn view(&self) -> RouteView {
        RouteView {
            method: self.method,
            path: self.path@,
            authenticated: self.authenticated,
            required_role: text_view(self.required_role),
        }
    }
}

/// The mathematical value of a table of routes.
pub open spec fn table_view(routes: Seq<Route>) -> Seq<RouteView> {
    Seq::new(routes.len(), |i: int| routes[i]@)
}

/// A route that anyone may use.
pub open spec fn open_route(method: Method, path: Seq<char>) -> RouteView {
    RouteView { method, path, authenticated: false, required_role: None }
}

/// A route for authenticated callers.
pub open spec fn guarded_route(method: Method, path: Seq<char>) -> RouteView {
    RouteView { method, path, authenticated: true, required_role: None }
}

/// A route for authenticated callers in the role `role`.
pub open spec fn role_route(method: Method, path: Seq<char>, role: Seq<char>) -> RouteView {
    RouteView { method, path, authenticated: true, required_role: Some(role) }
}

/// No route asks for a role without asking for authentication.
pub open spec fn roles_are_guarded(table: Seq<RouteView>) -> bool {
    forall|i: int| 0 <= i < table.len() ==> ((#[trigger] table[i]).required_role is Some
        ==> table[i].authenticated)
}

/// Makes an open route.
fn unguarded(method: Method, path: &str) -> (r: Route)
    ensures
        r@ == open_route(method, path@),
{
    Route { method, path: path.to_owned(), authenticated: false, required_role: None }
}

/// Makes a route for authenticated callers.
fn guarded(method: Method, path: &str) -> (r: Route)
    ensures
        r@ == guarded_route(method, path@),
{
    Route { method, path: path.to_owned(), authenticated: true, required_role: None }
}

/// Makes a route for authenticated callers in one role.
fn for_role(method: Method, path: &str, role: &str) -> (r: Route)
    ensures
        r@ == role_route(method, path@, role@),
{
    Route { method, path: path.to_owned(), authenticated: true, required_role: Some(role.to_owned()) }
}

/// The shelter routes: all for authenticated callers.
pub open spec fn shelters_table() -> Seq<RouteView> {
    seq![
        guarded_route(Method::Get, "/get_shelters"@),
        guarded_route(Method::Post, "/create_shelter"@),
        guarded_route(Method::Delete, "/delete_shelter"@),
        guarded_route(Method::Patch, "/update_shelter"@),
    ]
}

/// The resource routes: listing is open, every change is for authenticated
/// callers.
pub open spec fn resources_table() -> Seq<RouteView> {
    seq![
        guarded_route(Method::Post, "/create_resource"@),
        guarded_route(Method::Delete, "/delete_resource"@),
        guarded_route(Method::Patch, "/update_resource"@),
        open_route(Method::Get, "/get_resources"@),
    ]
}

/// The account routes: both open.
pub open spec fn user_table() -> Seq<RouteView> {
    seq![open_route(Method::Post, "/login"@), open_route(Method::Post, "/register"@)]
}

/// The disaster routes: reviewing entries is for relief organisations,
/// everything else for authenticated callers.
pub open spec fn disaster_table() -> Seq<RouteView> {
    seq![
        role_route(Method::Patch, "/update_do/{dr_id}/{gi_id}"@, "ngo"@),
        role_route(Method::Patch, "/update_dont/{dr_id}/{gi_id}"@, "ngo"@),
        guarded_route(Method::Post, "/add_disaster_record"@),
        guarded_route(Method::Patch, "/add_do/{dr_id}"@),
        guarded_route(Method::Patch, "/add_dont/{dr_id}"@),
        guarded_route(Method::Get, "/get_disaster_record/{dr_id}"@),
    ]
}

/// A table mounted under a prefix.
pub open spec fn nested(prefix: Seq<char>, table: Seq<RouteView>) -> Seq<RouteView> {
    Seq::new(table.len(), |i: int| RouteView { path: prefix + table[i].path, ..table[i] })
}

/// All the routes of the service.
pub open spec fn service_table() -> Seq<RouteView> {
    nested("/shelters"@, shelters_table()) + nested("/user"@, user_table()) + nested(
        "/resources"@,
        resources_table(),
    ) + nested("/disaster"@, disaster_table())
}

/// The shelter routes.
pub fn shelters_routes() -> (r: Vec<Route>)
    ensures
        table_view(r@) == shelters_table(),
{
    let mut routes: Vec<Route> = Vec::new();
    routes.push(guarded(Method::Get, "/get_shelters"));
    routes.push(guarded(Method::Post, "/create_shelter"));
    routes.push(guarded(Method::Delete, "/delete_shelter"));
    routes.push(guarded(Method::Patch, "/update_shelter"));
    assert(table_view(routes@) =~= shelters_table());
    routes
}

/// The resource routes.
pub fn resources_routes() -> (r: Vec<Route>)
    ensures
        table_view(r@) == resources_table(),
{
    let mut routes: Vec<Route> = Vec::new();
    routes.push(guarded(Method::Post, "/create_resource"));
    routes.push(guarded(Method::Delete, "/delete_resource"));
    routes.push(guarded(Method::Patch, "/update_resource"));
    routes.push(unguarded(Method::Get, "/get_resources"));
    assert(table_view(routes@) =~= resources_table());
    routes
}

/// The account routes.
pub fn user_routes() -> (r: Vec<Route>)
    ensures
        table_view(r@) == user_table(),
{
    let mut routes: Vec<Route> = Vec::new();
    routes.push(unguarded(Method::Post, "/login"));
    routes.push(unguarded(Method::Post, "/register"));
    assert(table_view(routes@) =~= user_table());
    routes
}

/// The disaster routes.
pub fn create_routes() -> (r: Vec<Route>)
    ensures
        table_view(r@) == disaster_table(),
{
    let mut routes: Vec<Route> = Vec::new();
    routes.push(for_role(Method::Patch, "/update_do/{dr_id}/{gi_id}", "ngo"));
    routes.push(for_role(Method::Patch, "/update_dont/{dr_id}/{gi_id}", "ngo"));
    routes.push(guarded(Method::Post, "/add_disaster_record"));
    routes.push(guarded(Method::Patch, "/add_do/{dr_id}"));
    routes.push(guarded(Method::Patch, "/add_dont/{dr_id}"));
    routes.push(guarded(Method::Get, "/get_disaster_record/{dr_id}"));
    assert(table_view(routes@) =~= disaster_table());
    routes
}

/// Mounts `table` under `prefix` and adds it to `routes`.
fn mount(routes: &mut Vec<Route>, prefix: &str, table: Vec<Route>)
    ensures
        table_view(final(routes)@) == table_view(old(routes)@) + nested(
            prefix@,
            table_view(table@),
        ),
{
    let ghost before = table_view(routes@);
    let ghost added = nested(prefix@, table_view(table@));
    let mut table = table;
    let ghost whole = table@;
    let mut moved: Vec<Route> = Vec::new();
    while table.len() > 0
        invariant
            table@.len() + moved@.len() == whole.len(),
            forall|i: int| 0 <= i < table@.len() ==> table@[i] == whole[i],
            forall|i: int|
                0 <= i < moved@.len() ==> (#[trigger] moved@[i])@ == (RouteView {
                    path: prefix@ + whole[whole.len() - 1 - i]@.path,
                    ..whole[whole.len() - 1 - i]@
                }),
        decreases table@.len(),
    {
        let route = table.pop().unwrap();
        let mut path: String = prefix.to_owned();
        path.append(route.path.as_str());
        moved.push(
            Route {
                method: route.method,
                path,
                authenticated: route.authenticated,
                required_role: route.required_role,
            },
        );
    }
    while moved.len() > 0
        invariant
            moved@.len() <= whole.len(),
            forall|i: int|
                0 <= i < moved@.len() ==> (#[trigger] moved@[i])@ == (RouteView {
                    path: prefix@ + whole[whole.len() - 1 - i]@.path,
                    ..whole[whole.len() - 1 - i]@
                }),
            added == nested(prefix@, table_view(whole)),
            table_view(routes@) == before + added.subrange(0, whole.len() - moved@.len()),
        decreases moved@.len(),
    {
        let ghost done = whole.len() - moved@.len();
        let ghost earlier = table_view(routes@);
        let route = moved.pop().unwrap();
        routes.push(route);
        assert(table_view(routes@) =~= earlier.push(added[done]));
        assert(before + added.subrange(0, done + 1) =~= (before + added.subrange(0, done)).push(
            added[done],
        ));
    }
    assert(added.subrange(0, whole.len() as int) =~= added);
}

/// All the routes of the service, each family under its prefix.
pub fn merge_routes() -> (r: Vec<Route>)
    ensures
        table_view(r@) == service_table(),
{
    let mut routes: Vec<Route> = Vec::new();
    assert(table_view(routes@) =~= Seq::<RouteView>::empty());
    mount(&mut routes, "/shelters", shelters_routes());
    mount(&mut routes, "/user", user_routes());
    mount(&mut routes, "/resources", resources_routes());
    mount(&mut routes, "/disaster", create_routes());
    assert(table_view(routes@) =~= service_table());
    routes
}

/// In the service's table no route asks for a role without asking for
/// authentication, and reviewing guide entries takes the role `ngo`.
pub proof fn service_roles_are_guarded()
    ensures
        roles_are_guarded(service_table()),
        roles_are_guarded(disaster_table()),
        disaster_table()[0].required_role == Some("ngo"@),
        disaster_table()[1].required_role == Some("ngo"@),
{
}

} // verus!
