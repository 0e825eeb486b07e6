use kube::{Error, ListParams, Patch, PatchParams, PostParams, Request, TypeInfo};

fn info(group: &str, api_version: &str, kind: &str) -> TypeInfo {
    TypeInfo {
        group: group.to_string(),
        api_version: api_version.to_string(),
        kind: kind.to_string(),
    }
}

fn validation_message<T>(r: Result<T, Error>) -> String {
    match r {
        Err(Error::RequestValidation(m)) => m,
        Err(Error::HttpError(e)) => panic!("http error: {:?}", e),
        Ok(_) => panic!("expected a validation error"),
    }
}

#[test]
fn make_url_core_and_group() {
    let pod = info("", "v1", "Pod");
    assert_eq!(Request::new(&pod, Some("kube-system")).make_url(), "/api/v1/namespaces/kube-system/pods");
    assert_eq!(Request::new(&pod, None).make_url(), "/api/v1/pods");
    let np = info("networking.k8s.io", "networking.k8s.io/v1", "NetworkPolicy");
    assert_eq!(Request::new(&np, None).make_url(), "/apis/networking.k8s.io/v1/networkpolicies");
}

#[test]
fn list_query_exact() {
    let i = info("", "v1", "Pod");
    let r = Request::new(&i, Some("ns"));
    let lp = ListParams {
        field_selector: Some("metadata.name=foo".to_string()),
        label_selector: Some("app in (a b)".to_string()),
        limit: Some(50),
        continue_token: Some("tok/1".to_string()),
        ..Default::default()
    };
    let req = r.list(&lp).unwrap();
    assert_eq!(
        req.uri().to_string(),
        "/api/v1/namespaces/ns/pods?&fieldSelector=metadata.name%3Dfoo&labelSelector=app+in+%28a+b%29&limit=50&continue=tok%2F1"
    );
    assert_eq!(req.method(), "GET");
    assert!(req.body().is_empty());
}

#[test]
fn list_encodes_utf8_bytes() {
    let i = info("", "v1", "Pod");
    let r = Request::new(&i, None);
    let lp = ListParams {
        label_selector: Some("é*-._".to_string()),
        ..Default::default()
    };
    let req = r.list(&lp).unwrap();
    assert_eq!(req.uri().to_string(), "/api/v1/pods?&labelSelector=%C3%A9*-._");
}

#[test]
fn watch_with_timeout_and_selectors() {
    let i = info("apps", "apps/v1", "Deployment");
    let r = Request::new(&i, None);
    let lp = ListParams {
        timeout: Some(0),
        bookmarks: false,
        field_selector: Some("a=b".to_string()),
        ..Default::default()
    };
    let req = r.watch(&lp, "12345").unwrap();
    assert_eq!(
        req.uri().to_string(),
        "/apis/apps/v1/deployments?&watch=true&resourceVersion=12345&timeoutSeconds=0&fieldSelector=a%3Db"
    );
}

#[test]
fn watch_refuses_long_timeout() {
    let i = info("", "v1", "Pod");
    let r = Request::new(&i, None);
    let lp = ListParams { timeout: Some(295), ..Default::default() };
    assert_eq!(validation_message(r.watch(&lp, "0")), "ListParams::timeout must be < 295s");
    let lp = ListParams { timeout: Some(294), ..Default::default() };
    let req = r.watch(&lp, "0").unwrap();
    assert!(req.uri().to_string().contains("&timeoutSeconds=294&"));
}

#[test]
fn watch_refuses_limit_and_continue() {
    let i = info("", "v1", "Pod");
    let r = Request::new(&i, None);
    let lp = ListParams { limit: Some(1), continue_token: Some("x".to_string()), ..Default::default() };
    assert_eq!(
        validation_message(r.watch(&lp, "0")),
        "ListParams::limit cannot be used with a watch."
    );
    let lp = ListParams { continue_token: Some("x".to_string()), ..Default::default() };
    assert_eq!(
        validation_message(r.watch(&lp, "0")),
        "ListParams::continue_token cannot be used with a watch."
    );
    // the timeout is checked first
    let lp = ListParams { timeout: Some(300), limit: Some(1), ..Default::default() };
    assert_eq!(validation_message(r.watch(&lp, "0")), "ListParams::timeout must be < 295s");
}

#[test]
fn create_carries_body_and_dry_run() {
    let i = info("", "v1", "ConfigMap");
    let r = Request::new(&i, Some("default"));
    let pp = PostParams { dry_run: true, ..Default::default() };
    let req = r.create(&pp, b"{\"a\":1}".to_vec()).unwrap();
    assert_eq!(req.uri().to_string(), "/api/v1/namespaces/default/configmaps?&dryRun=All");
    assert_eq!(req.method(), "POST");
    assert_eq!(req.body(), &b"{\"a\":1}".to_vec());
}

#[test]
fn create_refuses_long_field_manager() {
    let i = info("", "v1", "ConfigMap");
    let r = Request::new(&i, None);
    let pp = PostParams { field_manager: Some("m".repeat(129)), ..Default::default() };
    assert_eq!(
        validation_message(r.create(&pp, vec![])),
        "Failed to validate PostParams::field_manager!"
    );
    // 128 bytes are accepted; the length is counted in bytes
    let pp = PostParams { field_manager: Some("m".repeat(128)), ..Default::default() };
    assert!(r.create(&pp, vec![]).is_ok());
    let pp = PostParams { field_manager: Some("é".repeat(65)), ..Default::default() };
    assert!(r.create(&pp, vec![]).is_err());
}

#[test]
fn replace_does_not_check_field_manager() {
    let i = info("", "v1", "ConfigMap");
    let r = Request::new(&i, None);
    let pp = PostParams { field_manager: Some("m".repeat(200)), ..Default::default() };
    let req = r.replace("cm", &pp, vec![1, 2]).unwrap();
    assert_eq!(req.uri().to_string(), "/api/v1/configmaps/cm?");
    assert_eq!(req.body(), &vec![1u8, 2]);
}

#[test]
fn patch_query_and_headers() {
    let i = info("apps", "apps/v1", "Deployment");
    let r = Request::new(&i, Some("ns"));
    let pp = PatchParams {
        dry_run: true,
        force: true,
        field_manager: Some("kubectl apply".to_string()),
    };
    let body = b"{\"spec\":{}}".to_vec();
    let req = r.patch("web", &pp, &Patch::Apply(body.clone())).unwrap();
    assert_eq!(
        req.uri().to_string(),
        "/apis/apps/v1/namespaces/ns/deployments/web?&dryRun=All&force=true&fieldManager=kubectl+apply"
    );
    assert_eq!(req.headers().get("Accept").unwrap(), "application/json");
    assert_eq!(req.headers().get("Content-Type").unwrap(), "application/apply-patch+yaml");
    assert_eq!(req.body(), &body);
}

#[test]
fn patch_content_types() {
    assert_eq!(Patch::Json(vec![]).content_type(), "application/json-patch+json");
    assert_eq!(Patch::Merge(vec![]).content_type(), "application/merge-patch+json");
    assert_eq!(Patch::Strategic(vec![]).content_type(), "application/strategic-merge-patch+json");
    assert_eq!(Patch::Apply(vec![]).content_type(), "application/apply-patch+yaml");
    assert!(Patch::Apply(vec![]).is_apply());
    assert!(!Patch::Merge(vec![]).is_apply());
    assert_eq!(Patch::Strategic(vec![7, 8]).serialize(), vec![7, 8]);
}

#[test]
fn patch_refuses_force_without_apply() {
    let i = info("", "v1", "Node");
    let r = Request::new(&i, None);
    let pp = PatchParams { force: true, ..Default::default() };
    assert_eq!(
        validation_message(r.patch_status("n", &pp, &Patch::Merge(vec![]))),
        "PatchParams::force only works with Patch::Apply"
    );
    let pp = PatchParams { force: true, field_manager: Some("x".repeat(129)), ..Default::default() };
    assert_eq!(
        validation_message(r.patch_scale("n", &pp, &Patch::Merge(vec![]))),
        "Failed to validate PatchParams::field_manager!"
    );
}

#[test]
fn get_and_delete_paths() {
    let i = info("", "v1", "Secret");
    let r = Request::new(&i, Some("ns"));
    let req = r.get("s1").unwrap();
    assert_eq!(req.uri().to_string(), "/api/v1/namespaces/ns/secrets/s1");
    assert_eq!(req.method(), "GET");
    let req = r.get_status("s1").unwrap();
    assert_eq!(req.uri().to_string(), "/api/v1/namespaces/ns/secrets/s1/status");
    let req = r.delete("s1", b"{}".to_vec()).unwrap();
    assert_eq!(req.uri().to_string(), "/api/v1/namespaces/ns/secrets/s1?");
    assert_eq!(req.body(), &b"{}".to_vec());
    let lp = ListParams { label_selector: Some("a=b".to_string()), limit: Some(3), ..Default::default() };
    let req = r.delete_collection(vec![], &lp).unwrap();
    assert_eq!(req.uri().to_string(), "/api/v1/namespaces/ns/secrets?&labelSelector=a%3Db");
}

#[test]
fn invalid_name_is_an_http_error() {
    let i = info("", "v1", "Pod");
    let r = Request::new(&i, None);
    match r.get("a b") {
        Err(Error::HttpError(_)) => {}
        _ => panic!("a space in a path is refused by http"),
    }
}

#[test]
fn kind_is_lowercased() {
    let i = info("example.com", "example.com/v1", "FooPolicy");
    let r = Request::new(&i, None);
    assert_eq!(r.make_url(), "/apis/example.com/v1/foopolicies");
}

#[test]
fn default_params() {
    let lp = ListParams::default();
    assert!(lp.bookmarks);
    assert!(lp.timeout.is_none() && lp.limit.is_none());
    let pp = PatchParams::default();
    assert!(!pp.dry_run && !pp.force && pp.field_manager.is_none());
    let pp = PostParams::default();
    assert!(!pp.dry_run && pp.field_manager.is_none());
}
