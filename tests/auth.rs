use smithy_orchestrator::auth::{AuthOptionListResolver, AuthOptionListResolverParams, HttpAuthOption};

#[test]
fn list_resolver_returns_registered_options_in_order() {
    let resolver = AuthOptionListResolver::new(vec![
        HttpAuthOption::new("sigv4".to_string(), "region=us-east-1".to_string()),
        HttpAuthOption::new("bearer".to_string(), String::new()),
        HttpAuthOption::new("anonymous".to_string(), String::new()),
    ]);
    for _ in 0..2 {
        let options = resolver.resolve_auth_options(&AuthOptionListResolverParams::new()).unwrap();
        let ids: Vec<&str> = options.iter().map(|o| o.scheme_id()).collect();
        assert_eq!(vec!["sigv4", "bearer", "anonymous"], ids);
        assert_eq!("region=us-east-1", options[0].properties());
    }
}

#[test]
fn empty_list_resolves_to_empty_list() {
    let resolver = AuthOptionListResolver::new(Vec::new());
    let options = resolver.resolve_auth_options(&AuthOptionListResolverParams::new()).unwrap();
    assert!(options.is_empty());
}
