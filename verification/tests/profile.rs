use fern::profile::{
    drone_sim_stack, DRONE_SIM_GPU_FALLBACK_IDS, DRONE_SIM_GPU_TYPE_ID, DRONE_SIM_STACK_IMAGE,
};
use fern::provider::ComputeKind;

#[test]
fn stack_uses_one_gpu_and_udp_transport() {
    let spec = drone_sim_stack(None, 60, Some("auth-id".into()), None);

    assert_eq!(spec.compute, ComputeKind::Gpu);
    assert_eq!(spec.vcpu_count, None);
    assert_eq!(spec.gpu_count, Some(1));
    assert_eq!(spec.gpu_type_ids[0], DRONE_SIM_GPU_TYPE_ID);
    assert_eq!(&spec.gpu_type_ids[1..], DRONE_SIM_GPU_FALLBACK_IDS);
    assert_eq!(spec.env.get("FASTDDS_BUILTIN_TRANSPORTS").unwrap(), "UDPv4");
    assert_eq!(spec.env.get("DURATION").unwrap(), "60");
    assert_eq!(spec.env.get("FERN_PROFILE").unwrap(), "drone-sim-stack");
    assert_eq!(spec.env.get("FERN_WORKSPACE").unwrap(), "/workspace");
    assert!(!spec.env.contains_key("OUTDIR"));
    assert!(spec.ports.is_empty());
    assert_eq!(spec.image, DRONE_SIM_STACK_IMAGE);
    assert_eq!(spec.container_registry_auth_id.as_deref(), Some("auth-id"));
}

#[test]
fn stack_accepts_an_image_override() {
    let spec = drone_sim_stack(
        Some("registry.example/drone-sim:test".into()),
        300,
        None,
        Some("NVIDIA GeForce RTX 4090".into()),
    );
    assert_eq!(spec.image, "registry.example/drone-sim:test");
    assert_eq!(spec.gpu_type_ids, ["NVIDIA GeForce RTX 4090"]);
    assert!(spec.container_registry_auth_id.is_none());
}

#[test]
fn stack_fixed_fields() {
    let spec = drone_sim_stack(None, 0, None, None);
    assert_eq!(spec.name, "fern-drone-sim-stack");
    assert_eq!(spec.container_disk_gb, 40);
    assert_eq!(spec.volume_gb, 20);
    assert_eq!(spec.volume_mount_path, "/workspace");
    assert_eq!(spec.cloud_type, "SECURE");
    assert_eq!(spec.env.len(), 4);
    assert_eq!(spec.env.get("DURATION").unwrap(), "0");
    assert_eq!(spec.gpu_type_ids.len(), 1 + DRONE_SIM_GPU_FALLBACK_IDS.len());
}

#[test]
fn stack_duration_is_rendered_in_decimal() {
    for (seconds, text) in [(7u32, "7"), (10, "10"), (4294967295, "4294967295"), (1200, "1200")] {
        let spec = drone_sim_stack(None, seconds, None, None);
        assert_eq!(spec.env.get("DURATION").unwrap(), text);
    }
}
