//! Projects.

use vstd::prelude::*;
use modql::filter::{OpValsInt64, OpValsString, OpValsValue};
use time::OffsetDateTime;
use crate::ctx::Ctx;

verus! {

/// A moment with its UTC offset (`time::OffsetDateTime`), held opaque.
#[verifier::external_type_specification]
#[verifier::external_body]
pub struct ExOffsetDateTime(OffsetDateTime);

/// Filter operations on 64-bit integers (`modql`), held opaque.
#[verifier::external_type_specification]
#[verifier::external_body]
pub struct ExOpValsInt64(OpValsInt64);

/// Filter operations on strings (`modql`), held opaque.
#[verifier::external_type_specification]
#[verifier::external_body]
pub struct ExOpValsString(OpValsString);

/// Filter operations on JSON values (`modql`), held opaque.
#[verifier::external_type_specification]
#[verifier::external_body]
pub struct ExOpValsValue(OpValsValue);

/// A project, as stored.
pub struct Project {
    pub id: i64,
    pub owner_id: i64,
    pub name: String,
    pub cid: i64,
    pub ctime: OffsetDateTime,
    pub mid: i64,
    pub mtime: OffsetDateTime,
}

/// What a client gives to create a project.
pub struct ProjectForCreate {
    pub name: String,
}

/// What a client gives to update a project.
pub struct ProjectForUpdate {
    pub name: Option<String>,
    pub ownder_id: Option<i64>,
}

/// What is inserted to create a project: its name and its owner.
pub struct ProjectForCreateInner {
    pub name: String,
    pub owner_id: i64,
}

/// The filter of a project listing.
pub struct ProjectFilter {
    pub id: Option<OpValsInt64>,
    pub name: Option<OpValsString>,
    pub cid: Option<OpValsInt64>,
    pub ctime: Option<OpValsValue>,
    pub mid: Option<OpValsInt64>,
    pub mtime: Option<OpValsValue>,
}

/// The model controller of projects.
pub struct ProjectBmc;

impl ProjectBmc {
    /// What is inserted to create `project_c` in the context `ctx`: the
    /// project is owned by the context's user.
    pub fn create_inner(ctx: &Ctx, project_c: ProjectForCreate) -> (res: ProjectForCreateInner)
        ensures
            res.name == project_c.name,
            res.owner_id == ctx@,
    {
        ProjectForCreateInner { name: project_c.name, owner_id: ctx.user_id() }
    }
}

} // verus!
