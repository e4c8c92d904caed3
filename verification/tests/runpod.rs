use fern::provider::runpod::is_success;
use fern::env_vars::EnvVars;
use fern::provider::runpod::{
    authorization_header, endpoint, extract_error_message, normalize_status, pod_path,
    pod_stop_path, CreatePodRequest,
};
use fern::provider::{ComputeKind, DeploymentSpec, DeploymentStatus};
use fern::Error;

fn env_of(pairs: &[(&str, &str)]) -> EnvVars {
    let mut env = EnvVars::new();
    for (key, value) in pairs {
        env.insert((*key).to_string(), (*value).to_string());
    }
    env
}

#[test]
fn serializes_cpu_create_payload_with_runpod_field_names() {
    let request = CreatePodRequest::from(DeploymentSpec {
        name: "fern-lane-a".into(),
        image: "ghcr.io/example/drone-sim:sha-123".into(),
        container_registry_auth_id: Some("registry-auth-123".into()),
        compute: ComputeKind::Cpu,
        container_disk_gb: 40,
        volume_gb: 20,
        volume_mount_path: "/workspace".into(),
        ports: vec!["22/tcp".into(), "8080/http".into()],
        env: env_of(&[("FERN_PROFILE", "lane-a")]),
        cloud_type: "COMMUNITY".into(),
        vcpu_count: Some(8),
        gpu_count: None,
        gpu_type_ids: vec![],
    });

    assert_eq!(request.image_name, "ghcr.io/example/drone-sim:sha-123");
    assert_eq!(request.container_registry_auth_id.as_deref(), Some("registry-auth-123"));
    assert_eq!(request.compute_type.as_runpod_str(), "CPU");
    assert_eq!(request.container_disk_in_gb, 40);
    assert_eq!(request.vcpu_count, Some(8));
    assert!(request.gpu_count.is_none());
    assert!(request.gpu_type_ids.is_empty());
    assert!(request.gpu_type_priority.is_none());
}

#[test]
fn serializes_ordered_gpu_fallback() {
    let request = CreatePodRequest::from(DeploymentSpec {
        name: "fern-stack".into(),
        image: "ghcr.io/example/drone-sim@sha256:123".into(),
        container_registry_auth_id: None,
        compute: ComputeKind::Gpu,
        container_disk_gb: 40,
        volume_gb: 20,
        volume_mount_path: "/workspace".into(),
        ports: vec![],
        env: EnvVars::new(),
        cloud_type: "SECURE".into(),
        vcpu_count: None,
        gpu_count: Some(1),
        gpu_type_ids: vec![
            "NVIDIA RTX 2000 Ada Generation".into(),
            "NVIDIA GeForce RTX 4090".into(),
        ],
    });

    assert_eq!(request.gpu_type_priority.as_deref(), Some("custom"));
    assert_eq!(
        request.gpu_type_ids,
        ["NVIDIA RTX 2000 Ada Generation", "NVIDIA GeForce RTX 4090"]
    );
}

#[test]
fn extracts_structured_provider_errors() {
    assert_eq!(
        extract_error_message(
            r#"{"message":"There are no instances currently available"}"#,
            reqwest::StatusCode::INTERNAL_SERVER_ERROR.as_u16(),
        ),
        "There are no instances currently available"
    );
}

#[test]
fn create_request_keeps_every_field() {
    let request = CreatePodRequest::from(DeploymentSpec {
        name: "n".into(),
        image: "i".into(),
        container_registry_auth_id: None,
        compute: ComputeKind::Gpu,
        container_disk_gb: 7,
        volume_gb: 3,
        volume_mount_path: "/data".into(),
        ports: vec!["22/tcp".into()],
        env: env_of(&[("A", "1"), ("B", "2")]),
        cloud_type: "COMMUNITY".into(),
        vcpu_count: Some(2),
        gpu_count: Some(4),
        gpu_type_ids: vec!["NVIDIA L4".into()],
    });
    assert_eq!(request.name, "n");
    assert_eq!(request.image_name, "i");
    assert_eq!(request.compute_type, ComputeKind::Gpu);
    assert_eq!(request.volume_in_gb, 3);
    assert_eq!(request.volume_mount_path, "/data");
    assert_eq!(request.ports, ["22/tcp"]);
    assert_eq!(request.env.get("B").unwrap(), "2");
    assert_eq!(request.cloud_type, "COMMUNITY");
    assert!(request.support_public_ip);
    assert_eq!(request.gpu_count, Some(4));
    assert_eq!(request.gpu_type_priority.as_deref(), Some("custom"));
}

#[test]
fn statuses_are_normalized_without_regard_to_case() {
    assert_eq!(normalize_status("RUNNING"), DeploymentStatus::Running);
    assert_eq!(normalize_status("running"), DeploymentStatus::Running);
    assert_eq!(normalize_status("Exited"), DeploymentStatus::Exited);
    assert_eq!(normalize_status("terminated"), DeploymentStatus::Terminated);
    assert_eq!(normalize_status("CREATED"), DeploymentStatus::Pending);
    assert_eq!(normalize_status("pending"), DeploymentStatus::Pending);
    assert_eq!(normalize_status(""), DeploymentStatus::Unknown);
    assert_eq!(normalize_status("RESTARTING"), DeploymentStatus::Unknown);
    assert_eq!(normalize_status(" RUNNING"), DeploymentStatus::Unknown);
}

#[test]
fn compute_kinds_have_runpod_names() {
    assert_eq!(ComputeKind::Cpu.as_runpod_str(), "CPU");
    assert_eq!(ComputeKind::Gpu.as_runpod_str(), "GPU");
}

#[test]
fn error_members_are_tried_in_order() {
    let body = r#"{"detail":"third","error":"second","message":"  "}"#;
    assert_eq!(extract_error_message(body, 400), "second");
    let body = r#"{"detail":"  third  ","error":42}"#;
    assert_eq!(extract_error_message(body, 400), "third");
}

#[test]
fn unstructured_body_is_reported_trimmed() {
    assert_eq!(extract_error_message("  gateway exploded \n", 502), "gateway exploded");
    assert_eq!(extract_error_message("[\"message\"]", 500), "[\"message\"]");
}

#[test]
fn empty_body_falls_back_to_status_reason() {
    assert_eq!(extract_error_message("", 404), "Not Found");
    assert_eq!(extract_error_message(" \n ", 503), "Service Unavailable");
    assert_eq!(extract_error_message("", 599), "unknown provider error");
}

#[test]
fn endpoint_ignores_leading_slashes() {
    let config = fern::Config::from_values(Some("key".into()), None, None).unwrap();
    let base = config.runpod_api_base();
    let a = endpoint(base, "/pods").unwrap();
    let b = endpoint(base, "pods").unwrap();
    let c = endpoint(base, "///pods/abc/stop").unwrap();
    assert_eq!(a.as_str(), "https://rest.runpod.io/v1/pods");
    assert_eq!(b.as_str(), a.as_str());
    assert_eq!(c.as_str(), "https://rest.runpod.io/v1/pods/abc/stop");
}

#[test]
fn authorization_header_is_a_sensitive_bearer_token() {
    let header = authorization_header("secret-key").unwrap();
    assert_eq!(header.text(), "Bearer secret-key");
    assert!(header.is_sensitive());
    let value = header.into_value();
    assert_eq!(value.to_str().unwrap(), "Bearer secret-key");
    assert!(value.is_sensitive());
}

#[test]
fn authorization_header_refuses_control_characters() {
    let error = authorization_header("bad\nkey").err().unwrap();
    assert!(matches!(error, Error::InvalidHeader(_)));
    assert_eq!(
        error.to_string(),
        "invalid HTTP header value: failed to parse header value"
    );
    assert!(authorization_header("tab\tkey").is_ok());
}

#[test]
fn api_errors_display_status_and_message() {
    let error = Error::Api {
        status: 429,
        message: "slow down".into(),
    };
    assert_eq!(
        error.to_string(),
        "Runpod API returned 429 Too Many Requests: slow down"
    );
    let error = Error::Api {
        status: 599,
        message: "odd".into(),
    };
    assert_eq!(
        error.to_string(),
        "Runpod API returned 599 <unknown status code>: odd"
    );
}

#[test]
fn pod_paths() {
    assert_eq!(pod_path("abc123"), "pods/abc123");
    assert_eq!(pod_stop_path("abc123"), "pods/abc123/stop");
}

#[test]
fn success_statuses_are_2xx() {

    assert!(is_success(200));
    assert!(is_success(204));
    assert!(is_success(299));
    assert!(!is_success(199));
    assert!(!is_success(300));
    assert!(!is_success(404));
}

#[test]
fn endpoint_join_refusal_reports_reason() {
    let config = fern::Config::from_values(Some("key".into()), None, None).unwrap();
    let error = endpoint(config.runpod_api_base(), "http://[::1").err().unwrap();
    assert!(matches!(
        error,
        Error::InvalidUrl(fern::api_url::UrlError::InvalidIpv6Address)
    ));
}

#[test]
fn requests_compare_by_value() {
    let spec = fern::profile::drone_sim_stack(None, 60, None, None);
    assert_eq!(spec.clone(), spec);
    let request = CreatePodRequest::from(spec.clone());
    assert_eq!(request.clone(), request);
    assert_eq!(
        Error::from(fern::api_url::UrlError::EmptyHost).to_string(),
        "invalid Runpod API URL: empty host"
    );
}
