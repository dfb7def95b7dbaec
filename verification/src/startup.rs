//! How the server is assembled: its settings, the fairings it attaches and
//! the endpoints it mounts, and where each endpoint answers.
use vstd::prelude::*;

use crate::config::RocketSettings;
use crate::decimal::decimal;
use crate::routes::problems::{problem_location, PROBLEMS_BASE};
use crate::routes::users::{profile_location, USERS_BASE};
use crate::routes::{endpoint_path, problems, users, Endpoint};

verus! {

/// Where the health check is mounted.
pub const API_BASE: &'static str = "/api";

/// A fairing that the server attaches.
#[derive(Clone, Copy, Debug, PartialEq, Eq, Structural)]
pub enum Fairing {
    /// The database pool.
    DatabasePool,
    /// The run of the database migrations, once the server ignites.
    Migrations,
}

/// Endpoints mounted below a common base path.
#[derive(Debug)]
pub struct Mount {
    pub base: &'static str,
    pub routes: Vec<Endpoint>,
}

/// The server, as it is to be launched.
#[derive(Debug)]
pub struct RocketPlan {
    pub configuration: RocketSettings,
    pub fairings: Vec<Fairing>,
    pub mounts: Vec<Mount>,
}

/// The mounts of the API: the health check at `/api`, the problem
/// endpoints at `/api/problems`, the user endpoints at `/api/users`.
pub open spec fn api_mounts(mounts: Seq<Mount>) -> bool {
    &&& mounts.len() == 3
    &&& mounts[0].base@ == API_BASE@
    &&& mounts[0].routes@ == seq![Endpoint::HealthCheck]
    &&& mounts[1].base@ == PROBLEMS_BASE@
    &&& mounts[1].routes@ == seq![
        Endpoint::CreateProblem,
        Endpoint::GetProblems,
        Endpoint::GetProblem,
        Endpoint::UpdateProblem,
        Endpoint::DeleteProblem,
    ]
    &&& mounts[2].base@ == USERS_BASE@
    &&& mounts[2].routes@ == seq![
        Endpoint::Login,
        Endpoint::Register,
        Endpoint::Me,
        Endpoint::GetProfile,
        Endpoint::Logout,
    ]
}

/// Assembles the server: the given settings, the database pool and the
/// migrations as fairings, and the API's mounts.
pub fn rocket(configuration: RocketSettings) -> (r: RocketPlan)
    ensures
        r.configuration == configuration,
        r.fairings@ == seq![Fairing::DatabasePool, Fairing::Migrations],
        api_mounts(r.mounts@),
{
    let fairings = vec![Fairing::DatabasePool, Fairing::Migrations];
    let health = Mount { base: API_BASE, routes: vec![Endpoint::HealthCheck] };
    assert(health.routes@ =~= seq![Endpoint::HealthCheck]);
    let problem_routes = Mount { base: PROBLEMS_BASE, routes: problems::routes() };
    let user_routes = Mount { base: USERS_BASE, routes: users::routes() };
    let mounts = vec![health, problem_routes, user_routes];
    RocketPlan { configuration, fairings, mounts }
}

/// The path at which `e`, mounted at `base`, answers for the id `id`.
pub open spec fn route_uri(base: Seq<char>, e: Endpoint, id: i32) -> Seq<char> {
    if endpoint_path(e) == "/<id>"@ {
        base + "/"@ + decimal(id as int)
    } else {
        base + endpoint_path(e)
    }
}

/// The path that a created problem or a registered user is announced at
/// is a path that the mounted lookup of that problem or of that user's
/// profile answers.
pub proof fn law_locations_are_routed(mounts: Seq<Mount>, id: i32)
    requires
        api_mounts(mounts),
    ensures
        mounts[1].routes@.contains(Endpoint::GetProblem),
        problem_location(id) == route_uri(mounts[1].base@, Endpoint::GetProblem, id),
        mounts[2].routes@.contains(Endpoint::GetProfile),
        profile_location(id) == route_uri(mounts[2].base@, Endpoint::GetProfile, id),
{
    assert(mounts[1].routes@[2] == Endpoint::GetProblem);
    assert(mounts[2].routes@[3] == Endpoint::GetProfile);
}

} // verus!
