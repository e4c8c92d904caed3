//! Built-in deployment profiles.

use vstd::prelude::*;

use crate::env_vars::EnvVars;
use crate::provider::{texts, ComputeKind, DeploymentSpec};
use crate::text::{decimal, decimal_string};

verus! {

/// The Drone Sim stack image used when no override is given.
pub const DRONE_SIM_STACK_IMAGE: &'static str = "ghcr.io/teapotlaboratories/drone-sim:stack-main";

/// The GPU type tried first for the Drone Sim stack.
pub const DRONE_SIM_GPU_TYPE_ID: &'static str = "NVIDIA RTX 2000 Ada Generation";

/// The GPU types tried, in order, when the first one has no capacity.
pub const DRONE_SIM_GPU_FALLBACK_IDS: [&'static str; 6] = [
    "NVIDIA RTX 4000 Ada Generation",
    "NVIDIA GeForce RTX 4090",
    "NVIDIA L4",
    "NVIDIA RTX 5000 Ada Generation",
    "NVIDIA RTX 6000 Ada Generation",
    "NVIDIA L40S",
];

/// The GPU types the stack asks for: the override alone, or the default
/// type followed by the fallbacks in their order.
pub open spec fn stack_gpu_types(gpu_type_id: Option<Seq<char>>) -> Seq<Seq<char>> {
    match gpu_type_id {
        Some(g) => seq![g],
        None => seq![DRONE_SIM_GPU_TYPE_ID@] + DRONE_SIM_GPU_FALLBACK_IDS@.map_values(
            |s: &str| s@,
        ),
    }
}

/// An override is the whole GPU type list: one element, the override
/// itself, whatever it is. Without one the list is the default type followed
/// by each fallback in its order.
pub proof fn lemma_gpu_override_is_alone(g: Seq<char>)
    ensures
        stack_gpu_types(Some(g)).len() == 1,
        stack_gpu_types(Some(g))[0] == g,
        stack_gpu_types(None).len() == 1 + DRONE_SIM_GPU_FALLBACK_IDS@.len(),
        stack_gpu_types(None)[0] == DRONE_SIM_GPU_TYPE_ID@,
        forall|k: int|
            0 <= k < DRONE_SIM_GPU_FALLBACK_IDS@.len() ==> #[trigger] stack_gpu_types(None)[k + 1]
                == DRONE_SIM_GPU_FALLBACK_IDS@[k]@,
{
}

/// The environment of the stack container.
pub open spec fn stack_env(duration_seconds: u32) -> Map<Seq<char>, Seq<char>> {
    Map::empty().insert("DURATION"@, decimal(duration_seconds as nat)).insert(
        "FASTDDS_BUILTIN_TRANSPORTS"@,
        "UDPv4"@,
    ).insert("FERN_PROFILE"@, "drone-sim-stack"@).insert("FERN_WORKSPACE"@, "/workspace"@)
}

/// The Drone Sim stack on one GPU, with all of its UDP transports kept
/// inside the pod.
pub fn drone_sim_stack(
    image: Option<String>,
    duration_seconds: u32,
    container_registry_auth_id: Option<String>,
    gpu_type_id: Option<String>,
) -> (spec: DeploymentSpec)
    ensures
        spec.name@ == "fern-drone-sim-stack"@,
        spec.image@ == (match image {
            Some(i) => i@,
            None => DRONE_SIM_STACK_IMAGE@,
        }),
        spec.container_registry_auth_id == container_registry_auth_id,
        spec.compute == ComputeKind::Gpu,
        spec.container_disk_gb == 40,
        spec.volume_gb == 20,
        spec.volume_mount_path@ == "/workspace"@,
        spec.ports@.len() == 0,
        spec.env@ == stack_env(duration_seconds),
        spec.cloud_type@ == "SECURE"@,
        spec.vcpu_count is None,
        spec.gpu_count == Some(1u32),
        texts(spec.gpu_type_ids@) == stack_gpu_types(
            match gpu_type_id {
                Some(g) => Some(g@),
                None => None,
            },
        ),
        gpu_type_id matches Some(g) ==> spec.gpu_type_ids@.len() == 1 && spec.gpu_type_ids@[0]@
            == g@,
        gpu_type_id is None ==> spec.gpu_type_ids@.len() == 1 + DRONE_SIM_GPU_FALLBACK_IDS@.len()
            && spec.gpu_type_ids@[0]@ == DRONE_SIM_GPU_TYPE_ID@ && forall|k: int|
            0 <= k < DRONE_SIM_GPU_FALLBACK_IDS@.len() ==> #[trigger] spec.gpu_type_ids@[k + 1]@
                == DRONE_SIM_GPU_FALLBACK_IDS@[k]@,
{
    let gpu_type_ids = match gpu_type_id {
        Some(gpu_type_id) => {
            let mut ids: Vec<String> = Vec::new();
            ids.push(gpu_type_id);
            assert(texts(ids@) =~= seq![ids@[0]@]);
            ids
        },
        None => {
            let mut ids: Vec<String> = Vec::new();
            ids.push(DRONE_SIM_GPU_TYPE_ID.to_string());
            let fallbacks = DRONE_SIM_GPU_FALLBACK_IDS;
            let n = fallbacks.len();
            let mut i: usize = 0;
            while i < n
                invariant
                    n == fallbacks@.len(),
                    fallbacks == DRONE_SIM_GPU_FALLBACK_IDS,
                    i <= n,
                    texts(ids@) == seq![DRONE_SIM_GPU_TYPE_ID@] + fallbacks@.subrange(
                        0,
                        i as int,
                    ).map_values(|s: &str| s@),
                decreases n - i,
            {
                let ghost before = ids@;
                let next = fallbacks[i].to_string();
                assert(next@ == fallbacks@[i as int]@);
                ids.push(next);
                assert(fallbacks@.subrange(0, i + 1) =~= fallbacks@.subrange(0, i as int).push(
                    fallbacks@[i as int],
                ));
                assert(texts(ids@) =~= texts(before).push(next@));
                assert(texts(ids@) =~= seq![DRONE_SIM_GPU_TYPE_ID@] + fallbacks@.subrange(
                    0,
                    i + 1,
                ).map_values(|s: &str| s@));
                i = i + 1;
            }
            assert(fallbacks@.subrange(0, n as int) =~= fallbacks@);
            let ghost all = seq![DRONE_SIM_GPU_TYPE_ID@] + fallbacks@.map_values(|s: &str| s@);
            assert(texts(ids@) == all);
            assert(ids@.len() == all.len());
            assert(ids@[0]@ == DRONE_SIM_GPU_TYPE_ID@) by {
                assert(texts(ids@)[0] == ids@[0]@);
            }
            assert forall|k: int| 0 <= k < fallbacks@.len() implies #[trigger] ids@[k + 1]@
                == DRONE_SIM_GPU_FALLBACK_IDS@[k]@ by {
                assert(texts(ids@)[k + 1] == ids@[k + 1]@);
                assert(all[k + 1] == fallbacks@[k]@);
            }
            ids
        },
    };
    let mut env = EnvVars::new();
    env.insert("DURATION".to_string(), decimal_string(duration_seconds));
    env.insert("FASTDDS_BUILTIN_TRANSPORTS".to_string(), "UDPv4".to_string());
    env.insert("FERN_PROFILE".to_string(), "drone-sim-stack".to_string());
    env.insert("FERN_WORKSPACE".to_string(), "/workspace".to_string());
    let image = match image {
        Some(image) => image,
        None => DRONE_SIM_STACK_IMAGE.to_string(),
    };
    DeploymentSpec {
        name: "fern-drone-sim-stack".to_string(),
        image,
        container_registry_auth_id,
        compute: ComputeKind::Gpu,
        container_disk_gb: 40,
        volume_gb: 20,
        volume_mount_path: "/workspace".to_string(),
        ports: Vec::new(),
        env,
        cloud_type: "SECURE".to_string(),
        vcpu_count: None,
        gpu_count: Some(1),
        gpu_type_ids,
    }
}

} // verus!
