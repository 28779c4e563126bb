use web_app::rpc::router::{RpcHandler, RpcRouter};
use web_app::rpc::params::{params_optional, params_or_default, params_required};
use web_app::rpc::Error;

struct Named(&'static str);

impl RpcHandler<String> for Named {
    fn dyn_handler(self) -> String {
        self.into_dyn()
    }

    fn into_dyn(self) -> String {
        format!("handler:{}", self.0)
    }
}

#[test]
fn new_router_routes_nothing() {
    let router: RpcRouter<u32> = RpcRouter::new();
    match router.route("create_project") {
        Err(Error::RpcMethodUnknown(m)) => assert_eq!(m, "create_project"),
        _ => panic!("expected RpcMethodUnknown"),
    }
}

#[test]
fn add_dyn_routes_the_name() {
    let router = RpcRouter::new().add_dyn("create_project", 1u32).add_dyn("list_projects", 2u32);
    assert_eq!(*router.route("create_project").unwrap(), 1);
    assert_eq!(*router.route("list_projects").unwrap(), 2);
    assert!(router.route("delete_project").is_err());
}

#[test]
fn add_dyn_replaces_a_route() {
    let router = RpcRouter::new().add_dyn("get_project", 1u32).add_dyn("get_project", 7u32);
    assert_eq!(*router.route("get_project").unwrap(), 7);
}

#[test]
fn add_turns_the_handler_into_the_router_type() {
    let router = RpcRouter::<String>::new().add("update_project", Named("update"));
    assert_eq!(router.route("update_project").unwrap(), "handler:update");
}

#[test]
fn add_replaces_a_route() {
    let router = RpcRouter::<String>::new().add("get_project", Named("old")).add("get_project", Named("new"));
    assert_eq!(router.route("get_project").unwrap(), "handler:new");
    let router = RpcRouter::<String>::new()
        .add_dyn("list_projects", "kept".to_string())
        .add("get_project", Named("get"));
    assert_eq!(router.route("list_projects").unwrap(), "kept");
}

#[test]
fn required_params() {
    assert!(matches!(params_required::<u32>(None), Err(Error::RpcIntoParamsMissing)));
    assert_eq!(params_required(Some(serde_json::from_str::<u32>("5"))).unwrap(), 5);
    assert!(matches!(
        params_required(Some(serde_json::from_str::<u32>("x"))),
        Err(Error::SerdeJson(_))
    ));
}

#[test]
fn optional_params() {
    assert_eq!(params_optional::<u32>(None).unwrap(), None);
    assert_eq!(params_optional(Some(serde_json::from_str::<u32>("5"))).unwrap(), Some(5));
    assert!(matches!(
        params_optional(Some(serde_json::from_str::<u32>("x"))),
        Err(Error::SerdeJson(_))
    ));
}

#[test]
fn extend_keeps_both_and_prefers_the_added_router() {
    let first = RpcRouter::new().add_dyn("a", 1u32).add_dyn("b", 2u32);
    let second = RpcRouter::new().add_dyn("b", 20u32).add_dyn("c", 30u32);
    let router = first.extend(second);
    assert_eq!(*router.route("a").unwrap(), 1);
    assert_eq!(*router.route("b").unwrap(), 20);
    assert_eq!(*router.route("c").unwrap(), 30);
    match router.route("d") {
        Err(Error::RpcMethodUnknown(m)) => assert_eq!(m, "d"),
        _ => panic!("expected RpcMethodUnknown"),
    }
}

#[test]
fn add_of_a_router_typed_handler_is_add_dyn() {
    let router = RpcRouter::<u32>::new().add("a", 5u32);
    assert_eq!(*router.route("a").unwrap(), 5);
}

#[test]
fn default_params() {
    assert_eq!(params_or_default::<u32>(None, 9).unwrap(), 9);
    assert_eq!(params_or_default(Some(serde_json::from_str::<u32>("5")), 9).unwrap(), 5);
    assert!(matches!(
        params_or_default(Some(serde_json::from_str::<u32>("x")), 9),
        Err(Error::SerdeJson(_))
    ));
}
