use web_app::ctx::{self, Ctx};
use web_app::model::store::max_connections;
use web_app::model::{ModelManager, ProjectBmc, ProjectForCreate};
use web_app::pwd::scheme;

#[test]
fn model_manager_new_succeeds() {
    assert!(ModelManager::new().is_ok());
}

#[test]
fn created_project_is_owned_by_the_context_user() {
    let ctx = Ctx::new(1000).unwrap();
    let inner = ProjectBmc::create_inner(&ctx, ProjectForCreate { name: "proj 01".to_string() });
    assert_eq!(inner.name, "proj 01");
    assert_eq!(inner.owner_id, 1000);
}

#[test]
fn pool_size() {
    assert_eq!(max_connections(true), 1);
    assert_eq!(max_connections(false), 5);
}

#[test]
fn pwd_error_from_scheme_error() {
    let e: web_app::pwd::Error = scheme::Error::Key.into();
    assert_eq!(e, web_app::pwd::Error::Scheme(scheme::Error::Key));
}

#[test]
fn ctx_new_refuses_the_root_user() {
    assert_eq!(Ctx::new(0).unwrap_err(), ctx::Error::CtxCannotNewRootCtx);
    assert_eq!(Ctx::new(7).unwrap().user_id(), 7);
    assert_eq!(Ctx::new(-3).unwrap().user_id(), -3);
    assert_eq!(Ctx::root_ctx().user_id(), 0);
}

#[test]
fn lookup_by_id() {
    use_lookup();
}

fn use_lookup() {
    assert_eq!(web_app::model::found_or_not_found("project", 3, Some(9u32)).unwrap(), 9);
    match web_app::model::found_or_not_found::<u32>("project", 3, None) {
        Err(web_app::model::Error::EntityNotFound { entity, id }) => {
            assert_eq!(entity, "project");
            assert_eq!(id, 3);
        }
        _ => panic!("expected EntityNotFound"),
    }
}

#[test]
fn rows_affected() {
    assert!(web_app::model::check_rows_affected("project", 4, 1).is_ok());
    assert!(matches!(
        web_app::model::check_rows_affected("project", 4, 0),
        Err(web_app::model::Error::EntityNotFound { entity: "project", id: 4 })
    ));
}
