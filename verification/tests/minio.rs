use paas_gateway::minio::bucket::{
    bucket_address, create_bucket, create_bucket_internal, delete_bucket, delete_bucket_internal,
    BucketAddress, BucketPreset, CreateBucketReq, DeleteBucketReq,
};
use paas_gateway::minio::{hello, minio_router};
use paas_gateway::outcome::{OutcomeKind, Step};
use paas_gateway::route::{Handler, Method, Route};

fn create_req() -> CreateBucketReq {
    CreateBucketReq {
        host: "127.0.0.1".to_string(),
        port: 9000,
        access_key: "minioadmin".to_string(),
        secret_key: "SECRET-REDACTED".to_string(),
        bucket_name: "photos".to_string(),
    }
}

fn delete_req() -> DeleteBucketReq {
    DeleteBucketReq {
        host: "minio.internal".to_string(),
        port: 80,
        access_key: "ak".to_string(),
        secret_key: "sk".to_string(),
        bucket_name: "logs".to_string(),
    }
}

fn keys(bucket: &BucketAddress) -> (Option<String>, Option<String>) {
    (bucket.credentials.access_key.clone(), bucket.credentials.secret_key.clone())
}

#[test]
fn create_bucket_call() {
    let call = create_bucket_internal(create_req()).unwrap();
    assert_eq!(call.bucket.region, "us-east-1");
    assert_eq!(call.bucket.endpoint, "http://127.0.0.1:9000");
    assert_eq!(call.bucket.bucket_name, "photos");
    assert!(call.bucket.path_style);
    assert_eq!(call.config, BucketPreset::Default);
    assert_eq!(
        keys(&call.bucket),
        (Some("minioadmin".to_string()), Some("SECRET-REDACTED".to_string()))
    );
}

#[test]
fn delete_bucket_call() {
    let call = delete_bucket_internal(delete_req()).unwrap();
    assert_eq!(call.bucket.region, "us-east-1");
    assert_eq!(call.bucket.endpoint, "http://minio.internal:80");
    assert_eq!(call.bucket.bucket_name, "logs");
    assert!(call.bucket.path_style);
    assert_eq!(keys(&call.bucket), (Some("ak".to_string()), Some("sk".to_string())));
}

#[test]
fn credentials_hold_the_two_keys_and_nothing_else() {
    let call = create_bucket_internal(create_req()).unwrap();
    let expected = ::s3::creds::Credentials::new(
        Some("minioadmin"),
        Some("SECRET-REDACTED"),
        None,
        None,
        None,
    )
    .unwrap();
    assert_eq!(call.bucket.credentials, expected);
    assert_eq!(call.bucket.credentials.security_token, None);
    assert_eq!(call.bucket.credentials.session_token, None);
    assert!(call.bucket.credentials.expiration.is_none());
}

#[test]
fn empty_keys_are_still_keys() {
    let mut req = delete_req();
    req.access_key = String::new();
    req.secret_key = String::new();
    let call = delete_bucket_internal(req).unwrap();
    assert_eq!(keys(&call.bucket), (Some(String::new()), Some(String::new())));
}

#[test]
fn bucket_address_from_given_credentials() {
    let made = ::s3::creds::Credentials::new(Some("a"), Some("b"), None, None, None);
    let bucket = bucket_address("h".to_string(), 1, made, "n".to_string()).unwrap();
    assert_eq!(bucket.region, "us-east-1");
    assert_eq!(bucket.endpoint, "http://h:1");
    assert_eq!(bucket.bucket_name, "n");
    assert!(bucket.path_style);
    assert_eq!(keys(&bucket), (Some("a".to_string()), Some("b".to_string())));
}

#[test]
fn bucket_address_without_credentials_is_the_reason() {
    let error = ::s3::creds::error::CredentialsError::NoCredentials;
    let expected = ::s3::creds::error::CredentialsError::NoCredentials.to_string();
    let built = bucket_address("h".to_string(), 1, Err(error), "n".to_string());
    assert_eq!(built.unwrap_err(), expected);
    assert!(!expected.is_empty());
}

#[test]
fn bucket_endpoint_with_extreme_ports() {
    let mut req = create_req();
    req.port = 0;
    assert_eq!(create_bucket_internal(req).unwrap().bucket.endpoint, "http://127.0.0.1:0");
    let mut req = create_req();
    req.port = 65535;
    assert_eq!(create_bucket_internal(req).unwrap().bucket.endpoint, "http://127.0.0.1:65535");
}

#[test]
fn create_bucket_invokes_for_a_decoded_body() {
    match create_bucket(Ok(create_req())) {
        Step::Invoke(call) => {
            assert_eq!(call.bucket.endpoint, "http://127.0.0.1:9000");
            assert_eq!(call.bucket.bucket_name, "photos");
            assert_eq!(call.config, BucketPreset::Default);
            assert_eq!(keys(&call.bucket).0, Some("minioadmin".to_string()));
        }
        Step::Reply(outcome) => panic!("unexpected reply {:?}", outcome),
    }
}

#[test]
fn delete_bucket_invokes_for_a_decoded_body() {
    match delete_bucket(Ok(delete_req())) {
        Step::Invoke(call) => {
            assert_eq!(call.bucket.endpoint, "http://minio.internal:80");
            assert_eq!(call.bucket.bucket_name, "logs");
            assert_eq!(keys(&call.bucket).1, Some("sk".to_string()));
        }
        Step::Reply(outcome) => panic!("unexpected reply {:?}", outcome),
    }
}

#[test]
fn create_bucket_rejects_an_undecoded_body() {
    match create_bucket(Err("missing field `bucket_name` at line 1 column 71".to_string())) {
        Step::Invoke(call) => panic!("backend would be contacted: {:?}", call),
        Step::Reply(outcome) => {
            assert_eq!(outcome.kind, OutcomeKind::BadRequest);
            assert_eq!(outcome.status(), 500);
            assert_eq!(outcome.body, "missing field `bucket_name` at line 1 column 71");
        }
    }
}

#[test]
fn delete_bucket_rejects_an_undecoded_body() {
    match delete_bucket(Err("invalid type: string \"9000\", expected u16".to_string())) {
        Step::Invoke(call) => panic!("backend would be contacted: {:?}", call),
        Step::Reply(outcome) => {
            assert_eq!(outcome.kind, OutcomeKind::BadRequest);
            assert_eq!(outcome.status(), 500);
            assert_eq!(outcome.body, "invalid type: string \"9000\", expected u16");
        }
    }
}

#[test]
fn minio_hello() {
    let outcome = hello();
    assert_eq!(outcome.status(), 200);
    assert_eq!(outcome.body, "Hello, Minio");
}

#[test]
fn minio_routes() {
    assert_eq!(
        minio_router(),
        vec![
            Route { method: Method::Get, path: "/hello", handler: Handler::Hello },
            Route { method: Method::Post, path: "/buckets/create", handler: Handler::CreateBucket },
            Route { method: Method::Post, path: "/buckets/delete", handler: Handler::DeleteBucket },
        ]
    );
}
