//! Provider-neutral domain types: what kind of compute a deployment uses,
//! the lifecycle states a deployment reports, and the specification a
//! deployment is created from.

use vstd::prelude::*;

use crate::env_vars::EnvVars;

pub mod runpod;

verus! {

/// The kind of compute a deployment runs on.
#[derive(Clone, Copy, Debug, PartialEq, Eq, Structural)]
pub enum ComputeKind {
    Cpu,
    Gpu,
}

impl ComputeKind {
    /// The name Runpod's REST API uses for this compute kind.
    pub open spec fn runpod_name(self) -> Seq<char> {
        match self {
            ComputeKind::Cpu => "CPU"@,
            ComputeKind::Gpu => "GPU"@,
        }
    }

    pub fn as_runpod_str(self) -> (s: &'static str)
        ensures
            s@ == self.runpod_name(),
    {
        match self {
            ComputeKind::Cpu => "CPU",
            ComputeKind::Gpu => "GPU",
        }
    }
}

/// The lifecycle state of a deployment, normalised across providers.
#[derive(Clone, Copy, Debug, PartialEq, Eq, Structural)]
pub enum DeploymentStatus {
    Pending,
    Running,
    Exited,
    Terminated,
    Unknown,
}

/// Everything a provider needs to create a deployment.
#[derive(Clone, Debug, PartialEq, Eq)]
pub struct DeploymentSpec {
    pub name: String,
    pub image: String,
    pub container_registry_auth_id: Option<String>,
    pub compute: ComputeKind,
    pub container_disk_gb: u32,
    pub volume_gb: u32,
    pub volume_mount_path: String,
    pub ports: Vec<String>,
    pub env: EnvVars,
    pub cloud_type: String,
    pub vcpu_count: Option<u32>,
    pub gpu_count: Option<u32>,
    pub gpu_type_ids: Vec<String>,
}

/// The texts of a list of strings.
pub open spec fn texts(v: Seq<String>) -> Seq<Seq<char>> {
    v.map_values(|s: String| s@)
}

/// The text of an optional string.
pub open spec fn opt_text(o: Option<String>) -> Option<Seq<char>> {
    match o {
        Some(s) => Some(s@),
        None => None,
    }
}

} // verus!
