use kube::{Error, ListParams, Patch, PatchParams, PostParams, Request, TypeInfo};

fn info(group: &str, api_version: &str, kind: &str) -> TypeInfo {
    TypeInfo {
        group: group.to_string(),
        api_version: api_version.to_string(),
        kind: kind.to_string(),
    }
}

fn merge_unit() -> Patch {
    Patch::Merge(serde_json::to_vec(&()).unwrap())
}

#[test]
fn api_url_secret() {
    let i = info("", "v1", "Secret");
    let r = Request::new(&i, Some("ns"));
    let req = r.create(&PostParams::default(), vec![]).unwrap();
    assert_eq!(req.uri(), "/api/v1/namespaces/ns/secrets?");
}

#[test]
fn api_url_rs() {
    let i = info("apps", "apps/v1", "ReplicaSet");
    let r = Request::new(&i, Some("ns"));
    let req = r.create(&PostParams::default(), vec![]).unwrap();
    assert_eq!(req.uri(), "/apis/apps/v1/namespaces/ns/replicasets?");
}

#[test]
fn api_url_role() {
    let i = info("rbac.authorization.k8s.io", "rbac.authorization.k8s.io/v1", "Role");
    let r = Request::new(&i, Some("ns"));
    let req = r.create(&PostParams::default(), vec![]).unwrap();
    assert_eq!(
        req.uri(),
        "/apis/rbac.authorization.k8s.io/v1/namespaces/ns/roles?"
    );
}

#[test]
fn api_url_cj() {
    let i = info("batch", "batch/v1beta1", "CronJob");
    let r = Request::new(&i, Some("ns"));
    let req = r.create(&PostParams::default(), vec![]).unwrap();
    assert_eq!(req.uri(), "/apis/batch/v1beta1/namespaces/ns/cronjobs?");
}

#[test]
fn api_url_hpa() {
    let i = info("autoscaling", "autoscaling/v1", "HorizontalPodAutoscaler");
    let r = Request::new(&i, Some("ns"));
    let req = r.create(&PostParams::default(), vec![]).unwrap();
    assert_eq!(
        req.uri(),
        "/apis/autoscaling/v1/namespaces/ns/horizontalpodautoscalers?"
    );
}

#[test]
fn api_url_np() {
    let i = info("networking.k8s.io", "networking.k8s.io/v1", "NetworkPolicy");
    let r = Request::new(&i, Some("ns"));
    let req = r.create(&PostParams::default(), vec![]).unwrap();
    assert_eq!(
        req.uri(),
        "/apis/networking.k8s.io/v1/namespaces/ns/networkpolicies?"
    );
}

#[test]
fn api_url_ingress() {
    let i = info("extensions", "extensions/v1beta1", "Ingress");
    let r = Request::new(&i, Some("ns"));
    let req = r.create(&PostParams::default(), vec![]).unwrap();
    assert_eq!(req.uri(), "/apis/extensions/v1beta1/namespaces/ns/ingresses?");
}

#[test]
fn api_url_vattach() {
    let i = info("storage.k8s.io", "storage.k8s.io/v1", "VolumeAttachment");
    let r = Request::new(&i, None);
    let req = r.create(&PostParams::default(), vec![]).unwrap();
    assert_eq!(req.uri(), "/apis/storage.k8s.io/v1/volumeattachments?");
}

#[test]
fn api_url_admission() {
    let i = info(
        "admissionregistration.k8s.io",
        "admissionregistration.k8s.io/v1beta1",
        "ValidatingWebhookConfiguration",
    );
    let r = Request::new(&i, None);
    let req = r.create(&PostParams::default(), vec![]).unwrap();
    assert_eq!(
        req.uri(),
        "/apis/admissionregistration.k8s.io/v1beta1/validatingwebhookconfigurations?"
    );
}

#[test]
fn api_auth_selfreview() {
    let i = info("authorization.k8s.io", "authorization.k8s.io/v1", "SelfSubjectRulesReview");
    let r = Request::new(&i, None);
    let req = r.create(&PostParams::default(), vec![]).unwrap();
    assert_eq!(
        req.uri(),
        "/apis/authorization.k8s.io/v1/selfsubjectrulesreviews?"
    );
}

#[test]
fn api_apiextsv1_crd() {
    let i = info("apiextensions.k8s.io", "apiextensions.k8s.io/v1", "CustomResourceDefinition");
    let r = Request::new(&i, None);
    let req = r.create(&PostParams::default(), vec![]).unwrap();
    assert_eq!(
        req.uri(),
        "/apis/apiextensions.k8s.io/v1/customresourcedefinitions?"
    );
}

#[test]
fn list_path() {
    let i = info("apps", "apps/v1", "Deployment");
    let r = Request::new(&i, Some("ns"));
    let gp = ListParams::default();
    let req = r.list(&gp).unwrap();
    assert_eq!(req.uri(), "/apis/apps/v1/namespaces/ns/deployments");
}

#[test]
fn watch_path() {
    let i = info("", "v1", "Pod");
    let r = Request::new(&i, Some("ns"));
    let gp = ListParams::default();
    let req = r.watch(&gp, "0").unwrap();
    assert_eq!(
        req.uri(),
        "/api/v1/namespaces/ns/pods?&watch=true&resourceVersion=0&timeoutSeconds=290&allowWatchBookmarks=true"
    );
}

#[test]
fn replace_path() {
    let i = info("apps", "apps/v1", "DaemonSet");
    let r = Request::new(&i, None);
    let pp = PostParams {
        dry_run: true,
        ..Default::default()
    };
    let req = r.replace("myds", &pp, vec![]).unwrap();
    assert_eq!(req.uri(), "/apis/apps/v1/daemonsets/myds?&dryRun=All");
}

#[test]
fn delete_path() {
    let i = info("apps", "apps/v1", "ReplicaSet");
    let r = Request::new(&i, Some("ns"));
    // the serialized default delete options
    let dp = b"{}".to_vec();
    let req = r.delete("myrs", dp).unwrap();
    assert_eq!(req.uri(), "/apis/apps/v1/namespaces/ns/replicasets/myrs");
    assert_eq!(req.method(), "DELETE")
}

#[test]
fn delete_collection_path() {
    let i = info("apps", "apps/v1", "ReplicaSet");
    let r = Request::new(&i, Some("ns"));
    let lp = ListParams::default();
    let dp = b"{}".to_vec();
    let req = r.delete_collection(dp, &lp).unwrap();
    assert_eq!(req.uri(), "/apis/apps/v1/namespaces/ns/replicasets");
    assert_eq!(req.method(), "DELETE")
}

#[test]
fn namespace_path() {
    let i = info("", "v1", "Namespace");
    let r = Request::new(&i, None);
    let gp = ListParams::default();
    let req = r.list(&gp).unwrap();
    assert_eq!(req.uri(), "/api/v1/namespaces")
}

#[test]
fn patch_status_path() {
    let i = info("", "v1", "Node");
    let r = Request::new(&i, None);
    let pp = PatchParams::default();
    let req = r.patch_status("mynode", &pp, &merge_unit()).unwrap();
    assert_eq!(req.uri(), "/api/v1/nodes/mynode/status?");
    assert_eq!(
        req.headers().get("Content-Type").unwrap().to_str().unwrap(),
        merge_unit().content_type()
    );
    assert_eq!(req.method(), "PATCH");
}

#[test]
fn replace_status_path() {
    let i = info("", "v1", "Node");
    let r = Request::new(&i, None);
    let pp = PostParams::default();
    let req = r.replace_status("mynode", &pp, vec![]).unwrap();
    assert_eq!(req.uri(), "/api/v1/nodes/mynode/status?");
    assert_eq!(req.method(), "PUT");
}

#[test]
fn create_ingress() {
    // NB: Ingress exists in extensions AND networking
    let i = info("networking.k8s.io", "networking.k8s.io/v1beta1", "Ingress");
    let r = Request::new(&i, Some("ns"));
    let pp = PostParams::default();
    let req = r.create(&pp, vec![]).unwrap();

    assert_eq!(
        req.uri(),
        "/apis/networking.k8s.io/v1beta1/namespaces/ns/ingresses?"
    );
    let patch_params = PatchParams::default();
    let req = r.patch("baz", &patch_params, &merge_unit()).unwrap();
    assert_eq!(
        req.uri(),
        "/apis/networking.k8s.io/v1beta1/namespaces/ns/ingresses/baz?"
    );
    assert_eq!(req.method(), "PATCH");
}

#[test]
fn replace_status() {
    let i = info("apiextensions.k8s.io", "apiextensions.k8s.io/v1beta1", "CustomResourceDefinition");
    let r = Request::new(&i, None);
    let pp = PostParams::default();
    let req = r.replace_status("mycrd.domain.io", &pp, vec![]).unwrap();
    assert_eq!(
        req.uri(),
        "/apis/apiextensions.k8s.io/v1beta1/customresourcedefinitions/mycrd.domain.io/status?"
    );
}

#[test]
fn get_scale_path() {
    let i = info("", "v1", "Node");
    let r = Request::new(&i, None);
    let req = r.get_scale("mynode").unwrap();
    assert_eq!(req.uri(), "/api/v1/nodes/mynode/scale");
    assert_eq!(req.method(), "GET");
}

#[test]
fn patch_scale_path() {
    let i = info("", "v1", "Node");
    let r = Request::new(&i, None);
    let pp = PatchParams::default();
    let req = r.patch_scale("mynode", &pp, &merge_unit()).unwrap();
    assert_eq!(req.uri(), "/api/v1/nodes/mynode/scale?");
    assert_eq!(req.method(), "PATCH");
}

#[test]
fn replace_scale_path() {
    let i = info("", "v1", "Node");
    let r = Request::new(&i, None);
    let pp = PostParams::default();
    let req = r.replace_scale("mynode", &pp, vec![]).unwrap();
    assert_eq!(req.uri(), "/api/v1/nodes/mynode/scale?");
    assert_eq!(req.method(), "PUT");
}
