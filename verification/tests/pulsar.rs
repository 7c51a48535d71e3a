use paas_gateway::outcome::{respond, OutcomeKind, Step};
use paas_gateway::pulsar::tenant::{
    create_tenant, create_tenant_internal, delete_tenant, delete_tenant_internal, is_success,
    on_body, on_status, AdminMethod, AdminRequest, CreateTenantReq, DeleteTenantReq,
    PutTenantInternalReq, Reception, TenantOperation,
};
use paas_gateway::pulsar::{hello, pulsar_router};
use paas_gateway::route::{Handler, Method, Route};

fn create_req() -> CreateTenantReq {
    CreateTenantReq {
        host: "pulsar".to_string(),
        port: 8080,
        tenant: "acme".to_string(),
        allowed_clusters: vec!["standalone".to_string(), "eu-west".to_string()],
    }
}

fn delete_req() -> DeleteTenantReq {
    DeleteTenantReq { host: "pulsar".to_string(), port: 8080, tenant: "acme".to_string() }
}

#[test]
fn create_tenant_request() {
    assert_eq!(
        create_tenant_internal(create_req()),
        AdminRequest {
            method: AdminMethod::Put,
            url: "http://pulsar:8080/admin/v2/tenants/acme".to_string(),
            body: Some(PutTenantInternalReq {
                allowed_clusters: vec!["standalone".to_string(), "eu-west".to_string()],
            }),
        }
    );
}

#[test]
fn create_tenant_request_without_clusters() {
    let mut req = create_req();
    req.allowed_clusters = Vec::new();
    assert_eq!(
        create_tenant_internal(req).body,
        Some(PutTenantInternalReq { allowed_clusters: Vec::new() })
    );
}

#[test]
fn delete_tenant_request() {
    assert_eq!(
        delete_tenant_internal(delete_req()),
        AdminRequest {
            method: AdminMethod::Delete,
            url: "http://pulsar:8080/admin/v2/tenants/acme".to_string(),
            body: None,
        }
    );
}

#[test]
fn tenant_name_is_not_encoded_in_the_url() {
    let mut req = delete_req();
    req.tenant = "a b/c?d".to_string();
    req.port = 65535;
    assert_eq!(delete_tenant_internal(req).url, "http://pulsar:65535/admin/v2/tenants/a b/c?d");
}

#[test]
fn success_class_is_200_to_299() {
    assert!(!is_success(0));
    assert!(!is_success(100));
    assert!(!is_success(199));
    assert!(is_success(200));
    assert!(is_success(204));
    assert!(is_success(299));
    assert!(!is_success(300));
    assert!(!is_success(404));
    assert!(!is_success(409));
    assert!(!is_success(500));
    assert!(!is_success(65535));
}

#[test]
fn success_status_ends_the_operation() {
    assert_eq!(on_status(200), Reception::Accepted);
    assert_eq!(on_status(204), Reception::Accepted);
    assert_eq!(on_status(299), Reception::Accepted);
}

#[test]
fn other_status_asks_for_the_body() {
    assert_eq!(on_status(0), Reception::ReadBody);
    assert_eq!(on_status(199), Reception::ReadBody);
    assert_eq!(on_status(300), Reception::ReadBody);
    assert_eq!(on_status(404), Reception::ReadBody);
    assert_eq!(on_status(409), Reception::ReadBody);
    assert_eq!(on_status(500), Reception::ReadBody);
    assert_eq!(on_status(65535), Reception::ReadBody);
}

#[test]
fn status_judgement_agrees_with_the_success_class() {
    let mut status: u16 = 0;
    loop {
        let expected = if is_success(status) { Reception::Accepted } else { Reception::ReadBody };
        assert_eq!(on_status(status), expected);
        if status == u16::MAX {
            break;
        }
        status += 1;
    }
}

#[test]
fn refused_creation_quotes_the_response() {
    assert_eq!(
        on_body(TenantOperation::Create, Ok("tenant already exists".to_string())),
        "create tenant failed: tenant already exists"
    );
}

#[test]
fn refused_deletion_quotes_the_response() {
    assert_eq!(
        on_body(TenantOperation::Delete, Ok("Tenant does not exist".to_string())),
        "delete tenant failed: Tenant does not exist"
    );
}

#[test]
fn unreadable_response_is_reported_without_colon() {
    assert_eq!(
        on_body(TenantOperation::Create, Err("error decoding response body".to_string())),
        "create tenant failed error decoding response body"
    );
    assert_eq!(
        on_body(TenantOperation::Delete, Err("error decoding response body".to_string())),
        "delete tenant failed error decoding response body"
    );
}

#[test]
fn empty_response_text_is_quoted_as_empty() {
    assert_eq!(on_body(TenantOperation::Create, Ok(String::new())), "create tenant failed: ");
    assert_eq!(on_body(TenantOperation::Delete, Err(String::new())), "delete tenant failed ");
}

#[test]
fn conflict_is_surfaced_verbatim() {
    let text = "tenant already exists";
    assert_eq!(on_status(409), Reception::ReadBody);
    let failure = on_body(TenantOperation::Create, Ok(text.to_string()));
    let outcome = respond(Err(failure));
    assert_eq!(outcome.status(), 500);
    assert_eq!(outcome.kind, OutcomeKind::ServerError);
    assert!(outcome.body.contains(text));
    assert_eq!(outcome.body, "create tenant failed: tenant already exists");
}

#[test]
fn response_text_is_quoted_whatever_it_holds() {
    let texts = ["", " ", "{\"reason\":\"Tenant not empty\"}", "line1\nline2", "ünïcödé ✓", ": :"];
    for text in texts {
        let failure = on_body(TenantOperation::Delete, Ok(text.to_string()));
        assert!(failure.ends_with(text));
        assert_eq!(failure, format!("delete tenant failed: {}", text));
    }
}

#[test]
fn create_tenant_invokes_for_a_decoded_body() {
    match create_tenant(Ok(create_req())) {
        Step::Invoke(call) => assert_eq!(call, create_tenant_internal(create_req())),
        Step::Reply(outcome) => panic!("unexpected reply {:?}", outcome),
    }
}

#[test]
fn delete_tenant_invokes_for_a_decoded_body() {
    match delete_tenant(Ok(delete_req())) {
        Step::Invoke(call) => assert_eq!(call, delete_tenant_internal(delete_req())),
        Step::Reply(outcome) => panic!("unexpected reply {:?}", outcome),
    }
}

#[test]
fn create_tenant_rejects_an_undecoded_body() {
    match create_tenant(Err("missing field `allowed_clusters`".to_string())) {
        Step::Invoke(call) => panic!("backend would be contacted: {:?}", call),
        Step::Reply(outcome) => {
            assert_eq!(outcome.kind, OutcomeKind::BadRequest);
            assert_eq!(outcome.status(), 500);
            assert_eq!(outcome.body, "missing field `allowed_clusters`");
        }
    }
}

#[test]
fn delete_tenant_rejects_an_undecoded_body() {
    match delete_tenant(Err("missing field `tenant`".to_string())) {
        Step::Invoke(call) => panic!("backend would be contacted: {:?}", call),
        Step::Reply(outcome) => {
            assert_eq!(outcome.kind, OutcomeKind::BadRequest);
            assert_eq!(outcome.status(), 500);
            assert_eq!(outcome.body, "missing field `tenant`");
        }
    }
}

#[test]
fn pulsar_hello() {
    let outcome = hello();
    assert_eq!(outcome.status(), 200);
    assert_eq!(outcome.body, "Hello, Pulsar");
}

#[test]
fn pulsar_routes() {
    assert_eq!(
        pulsar_router(),
        vec![
            Route { method: Method::Get, path: "/hello", handler: Handler::Hello },
            Route { method: Method::Post, path: "/tenants/create", handler: Handler::CreateTenant },
            Route { method: Method::Post, path: "/tenants/delete", handler: Handler::DeleteTenant },
        ]
    );
}
