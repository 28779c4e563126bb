//! The data model: entities, their creation and update forms, and the model
//! controllers.

use vstd::prelude::*;

pub mod project;
pub mod store;
pub mod user;

pub use self::project::{
    Project, ProjectBmc, ProjectFilter, ProjectForCreate, ProjectForCreateInner, ProjectForUpdate,
};
pub use self::user::{User, UserBmc, UserBy, UserForAuth, UserForCreate, UserForLogin};

verus! {

/// The errors of the model layer.
#[derive(Debug)]
pub enum Error {
    EntityNotFound { entity: &'static str, id: i64 },
}

/// The entity that a lookup by id found, or `EntityNotFound` naming the
/// entity and the id.
pub fn found_or_not_found<T>(entity: &'static str, id: i64, found: Option<T>) -> (res: Result<T, Error>)
    ensures
        match found {
            Some(v) => res == Ok::<T, Error>(v),
            None => res == Err::<T, Error>(Error::EntityNotFound { entity, id }),
        },
{
    match found {
        Some(v) => Ok(v),
        None => Err(Error::EntityNotFound { entity, id }),
    }
}

/// An update or delete by id succeeded when it touched a row; when it
/// touched none, the entity was not there.
pub fn check_rows_affected(entity: &'static str, id: i64, count: u64) -> (res: Result<(), Error>)
    ensures
        count == 0 ==> res == Err::<(), Error>(Error::EntityNotFound { entity, id }),
        count != 0 ==> res is Ok,
{
    if count == 0 {
        Err(Error::EntityNotFound { entity, id })
    } else {
        Ok(())
    }
}

/// The model manager, handed to the model controllers.
#[derive(Clone)]
pub struct ModelManager {}

impl ModelManager {
    /// Creates the model manager.
    pub fn new() -> (res: Result<Self, Error>)
        ensures
            res is Ok,
    {
        Ok(ModelManager {  })
    }
}

} // verus!
