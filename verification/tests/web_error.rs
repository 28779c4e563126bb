use web_app::crypt;
use web_app::model;
use web_app::token;
use web_app::web::mw_auth::{ctx_from_extension, ctx_require, must_remove_auth_cookie, CtxExtError};
use web_app::web::{ClientError, Error};

#[test]
fn login_failures_are_forbidden_login_fail() {
    for e in [
        Error::LoginFailUsernameNotFound,
        Error::LoginFailUserHasNoPwd { user_id: 3 },
        Error::LoginFailPwdNotMatching { user_id: 3 },
    ] {
        let (status, client) = e.client_status_and_error();
        assert_eq!(status, 403);
        assert!(matches!(client, ClientError::LOGIN_FAIL));
    }
}

#[test]
fn auth_failures_are_forbidden_no_auth() {
    for e in [
        CtxExtError::TokenNotInCookie,
        CtxExtError::CtxNotInRequestExt,
        CtxExtError::CtxCreateFail("bad".to_string()),
    ] {
        let (status, client) = Error::CtxExt(e).client_status_and_error();
        assert_eq!(status, 403);
        assert!(matches!(client, ClientError::NO_AUTH));
    }
}

#[test]
fn entity_not_found_is_bad_request_naming_it() {
    let e = Error::Model(model::Error::EntityNotFound { entity: "project", id: 42 });
    let (status, client) = e.client_status_and_error();
    assert_eq!(status, 400);
    match client {
        ClientError::ENTITY_NOT_FOUND { entity, id } => {
            assert_eq!(entity, "project");
            assert_eq!(id, 42);
        }
        _ => panic!("expected ENTITY_NOT_FOUND"),
    }
}

#[test]
fn other_errors_are_service_errors() {
    let json_err = serde_json::from_str::<u32>("not json").unwrap_err();
    for e in [
        Error::RpcMethodUnknown("x".to_string()),
        Error::RpcMissingParams { rpc_method: "x".to_string() },
        Error::RpcFailJsonParams { rpc_method: "x".to_string() },
        Error::Pwd(crypt::Error::PwdNotMatching),
        Error::Token(token::Error::Expired),
        Error::SerdeJson(json_err),
    ] {
        let (status, client) = e.client_status_and_error();
        assert_eq!(status, 500);
        assert!(matches!(client, ClientError::SERVICE_ERROR));
    }
}

#[test]
fn cookie_removed_on_failure_other_than_missing_token() {
    assert!(!must_remove_auth_cookie::<u32>(&Ok(7)));
    assert!(!must_remove_auth_cookie::<u32>(&Err(CtxExtError::TokenNotInCookie)));
    assert!(must_remove_auth_cookie::<u32>(&Err(CtxExtError::CtxNotInRequestExt)));
    assert!(must_remove_auth_cookie::<u32>(&Err(CtxExtError::CtxCreateFail("x".to_string()))));
}

#[test]
fn ctx_extraction() {
    assert_eq!(ctx_from_extension(Some(Ok::<u32, CtxExtError>(5))).unwrap(), 5);
    assert!(matches!(
        ctx_from_extension::<u32>(None),
        Err(Error::CtxExt(CtxExtError::CtxNotInRequestExt))
    ));
    assert!(matches!(
        ctx_from_extension::<u32>(Some(Err(CtxExtError::TokenNotInCookie))),
        Err(Error::CtxExt(CtxExtError::TokenNotInCookie))
    ));
}

#[test]
fn ctx_required() {
    assert!(ctx_require(Ok::<u32, Error>(1)).is_ok());
    assert!(matches!(
        ctx_require::<u32>(Err(Error::CtxExt(CtxExtError::TokenNotInCookie))),
        Err(Error::CtxExt(CtxExtError::TokenNotInCookie))
    ));
}

#[test]
fn errors_convert_into_web_errors() {
    assert!(matches!(Error::from(CtxExtError::TokenNotInCookie), Error::CtxExt(_)));
    assert!(matches!(Error::from(crypt::Error::KeyFailHmac), Error::Pwd(crypt::Error::KeyFailHmac)));
    assert!(matches!(
        Error::from(token::Error::InvalidFormat),
        Error::Token(token::Error::InvalidFormat)
    ));
    assert!(matches!(
        Error::from(model::Error::EntityNotFound { entity: "user", id: 1 }),
        Error::Model(_)
    ));
}
