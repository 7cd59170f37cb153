//! The table of routes and the command that a request stands for.

use vstd::prelude::*;
use vstd::string::StringExecFns;
use crate::server::http::http_router::{
    find_param,
    first_route,
    param_value,
    ParamType,
    request_params,
    route,
    route_request_params,
    RouteData,
};
use crate::server::http::http_routes::{
    GetStateList,
    KillRoute,
    LaunchRoute,
    Handleable,
    Route404,
    TerminateRoute,
};

verus! {

/// Name of the path parameter that holds a work-unit id.
pub const ID_PARAM: &'static str = "id";

/// What a request asks the supervisor to do.
#[derive(Debug)]
pub enum Command {
    /// Start a worker for `id`.
    Launch { id: String },
    /// Ask the worker of `id` to stop, and kill it later if it has not.
    Terminate { id: String },
    /// Kill the worker of `id` in one call.
    Kill { id: String },
    /// List the state of every worker.
    StateList,
    /// Nothing: no route is for the request.
    NotFound,
}

/// A `Command` as contracts see it.
pub enum CommandPlan {
    Launch { id: Seq<char> },
    Terminate { id: Seq<char> },
    Kill { id: Seq<char> },
    StateList,
    NotFound,
}

impl View for Command {
    type V = CommandPlan;

    open spec fn view(&self) -> CommandPlan {
        match self {
            Command::Launch { id } => CommandPlan::Launch { id: id@ },
            Command::Terminate { id } => CommandPlan::Terminate { id: id@ },
            Command::Kill { id } => CommandPlan::Kill { id: id@ },
            Command::StateList => CommandPlan::StateList,
            Command::NotFound => CommandPlan::NotFound,
        }
    }
}

fn id_route(method: &str, path: &str) -> (data: RouteData)
    ensures
        data.method@ == method@,
        data.path@ == path@,
        data.params.is_some(),
        data.params.unwrap()@.len() == 1,
        data.params.unwrap()@[0].0@ == ID_PARAM@,
        data.params.unwrap()@[0].1 == ParamType::AnyString,
{
    let mut params: Vec<(String, ParamType)> = Vec::new();
    params.push((String::from_str(ID_PARAM), ParamType::AnyString));
    RouteData {
        method: String::from_str(method),
        path: String::from_str(path),
        params: Some(params),
    }
}

/// The routes of the command surface, in the order they are tried: launch,
/// terminate, kill, state list. The id of a work unit is any text.
pub fn init_routes() -> (routes: Vec<Handleable>)
    ensures
        routes@.len() == 4,
        routes@[0] is Launch && routes@[0].route_data().method@ == "POST"@
            && routes@[0].route_data().path@ == "/launch/{id}"@,
        routes@[1] is Terminate && routes@[1].route_data().method@ == "POST"@
            && routes@[1].route_data().path@ == "/terminate/{id}"@,
        routes@[2] is Kill && routes@[2].route_data().method@ == "POST"@
            && routes@[2].route_data().path@ == "/kill/{id}"@,
        routes@[3] is StateList && routes@[3].route_data().method@ == "GET"@
            && routes@[3].route_data().path@ == "/state-list"@
            && routes@[3].route_data().params.is_none(),
        forall|i: int|
            0 <= i < 3 ==> {
                let params = (#[trigger] routes@[i]).route_data().params;
                params.is_some() && params.unwrap()@.len() == 1 && params.unwrap()@[0].0@
                    == ID_PARAM@ && params.unwrap()@[0].1 == ParamType::AnyString
            },
{
    let mut routes: Vec<Handleable> = Vec::new();
    routes.push(Handleable::Launch(LaunchRoute { data: id_route("POST", "/launch/{id}") }));
    routes.push(Handleable::Terminate(TerminateRoute { data: id_route("POST", "/terminate/{id}") }));
    routes.push(Handleable::Kill(KillRoute { data: id_route("POST", "/kill/{id}") }));
    routes.push(
        Handleable::StateList(
            GetStateList {
                data: RouteData {
                    method: String::from_str("GET"),
                    path: String::from_str("/state-list"),
                    params: None,
                },
            },
        ),
    );
    routes
}

/// The route that answers what no other route is for.
pub fn default_route() -> (fallback: Handleable)
    ensures
        fallback is NotFound,
        fallback.route_data().method@ == "GET"@,
        fallback.route_data().path@ == "/404"@,
        fallback.route_data().params.is_none(),
{
    Handleable::NotFound(
        Route404 {
            data: RouteData {
                method: String::from_str("GET"),
                path: String::from_str("/404"),
                params: None,
            },
        },
    )
}

/// The command that `route` stands for when a request with `path` is for it.
/// A route that needs an id and gets none from the path stands for nothing.
pub open spec fn command_of(route: Handleable, path: Seq<char>) -> CommandPlan {
    let id = param_value(request_params(route.route_data(), path), ID_PARAM@);
    match route {
        Handleable::StateList(_) => CommandPlan::StateList,
        Handleable::NotFound(_) => CommandPlan::NotFound,
        _ => match id {
            None => CommandPlan::NotFound,
            Some(id) => match route {
                Handleable::Launch(_) => CommandPlan::Launch { id },
                Handleable::Terminate(_) => CommandPlan::Terminate { id },
                _ => CommandPlan::Kill { id },
            },
        },
    }
}

/// The command that a request with this method and path stands for, given
/// the routes: that of the first route it is for, and nothing if there is none.
pub open spec fn command_for(routes: Seq<Handleable>, method: Seq<char>, path: Seq<char>) -> CommandPlan {
    let i = first_route(routes, method, path);
    if i >= routes.len() {
        CommandPlan::NotFound
    } else {
        command_of(routes[i as int], path)
    }
}

/// Tells what a request asks for.
pub fn resolve(req_method: &str, req_path: &str, routes: &Vec<Handleable>) -> (command: Command)
    ensures
        command@ == command_for(routes@, req_method@, req_path@),
{
    let found = match route(req_method, req_path, routes) {
        Some(i) => &routes[i],
        None => { return Command::NotFound; },
    };
    match found {
        Handleable::StateList(_) => { return Command::StateList; },
        Handleable::NotFound(_) => { return Command::NotFound; },
        _ => {},
    }
    let params = route_request_params(req_path, found.data());
    let id = match find_param(&params, ID_PARAM) {
        Some(id) => id.clone(),
        None => { return Command::NotFound; },
    };
    match found {
        Handleable::Launch(_) => Command::Launch { id },
        Handleable::Terminate(_) => Command::Terminate { id },
        _ => Command::Kill { id },
    }
}

} // verus!
