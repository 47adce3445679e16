//! Projects, which group tickets.

use vstd::prelude::*;
use crate::error::ApiError;
use crate::jwt::Claim;
use crate::tickets::Ticket;

verus! {

/// A project with its tickets (listed without them).
pub struct Project {
    pub id: i32,
    pub name: String,
    pub description: String,
    pub tickets: Vec<Ticket>,
}

/// The body of `POST /projects`.
pub struct CreateProject {
    pub name: String,
    pub description: String,
}

/// The status of a created project (201).
pub const CREATED: u16 = 201;

/// A stored project as the list shows it: without its tickets.
pub fn project_from_row(id: i32, name: String, description: String) -> (p: Project)
    ensures
        p.id == id,
        p.name == name,
        p.description == description,
        p.tickets@.len() == 0,
{
    Project { id, name, description, tickets: Vec::new() }
}

/// A project to store, for a human caller (`auth` is the outcome of
/// `require_human`).
pub fn create_project(payload: &CreateProject, auth: Result<Claim, ApiError>) -> (r: Result<
    (String, String),
    ApiError,
>)
    ensures
        match auth {
            Err(e) => r == Err::<(String, String), ApiError>(e),
            Ok(_) => r matches Ok(p) && p.0@ == payload.name@ && p.1@ == payload.description@,
        },
{
    match auth {
        Err(e) => Err(e),
        Ok(_) => Ok((payload.name.clone(), payload.description.clone())),
    }
}

} // verus!
