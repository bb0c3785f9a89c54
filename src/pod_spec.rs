use vstd::prelude::*;

use crate::labels::{marker_active, marker_active_string, marker_key, marker_key_string};

verus! {

/// Name of the volume that carries the claim, and of its mounts.
pub open spec fn data_volume_name() -> Seq<char> {
    "data"@
}

/// Path at which every container sees the claim.
pub open spec fn data_mount_path() -> Seq<char> {
    "/data"@
}

/// Environment variable through which the public key reaches the pod.
pub open spec fn public_key_var() -> Seq<char> {
    "PUBLIC_KEY"@
}

pub open spec fn name_prefix() -> Seq<char> {
    "pvc-inspect-"@
}

#[derive(Debug)]
pub struct EnvVar {
    pub name: String,
    pub value: String,
}

pub struct EnvVarView {
    pub name: Seq<char>,
    pub value: Seq<char>,
}

impl View for EnvVar {
    type V = EnvVarView;

    open spec fn view(&self) -> EnvVarView {
        EnvVarView { name: self.name@, value: self.value@ }
    }
}

#[derive(Debug)]
pub struct VolumeMount {
    pub name: String,
    pub mount_path: String,
    pub read_only: bool,
}

pub struct VolumeMountView {
    pub name: Seq<char>,
    pub mount_path: Seq<char>,
    pub read_only: bool,
}

impl View for VolumeMount {
    type V = VolumeMountView;

    open spec fn view(&self) -> VolumeMountView {
        VolumeMountView { name: self.name@, mount_path: self.mount_path@, read_only: self.read_only }
    }
}

/// The part of a template container that the builder extends.
#[derive(Debug)]
pub struct ContainerSpec {
    pub name: String,
    pub env: Vec<EnvVar>,
    pub mounts: Vec<VolumeMount>,
}

pub struct ContainerView {
    pub name: Seq<char>,
    pub env: Seq<EnvVarView>,
    pub mounts: Seq<VolumeMountView>,
}

impl View for ContainerSpec {
    type V = ContainerView;

    open spec fn view(&self) -> ContainerView {
        ContainerView {
            name: self.name@,
            env: self.env@.map_values(|e: EnvVar| e@),
            mounts: self.mounts@.map_values(|m: VolumeMount| m@),
        }
    }
}

/// The base pod specification that a session starts from.
#[derive(Debug)]
pub struct PodTemplate {
    pub containers: Vec<ContainerSpec>,
}

impl View for PodTemplate {
    type V = Seq<ContainerView>;

    open spec fn view(&self) -> Seq<ContainerView> {
        self.containers@.map_values(|c: ContainerSpec| c@)
    }
}

/// A volume backed by a persistent volume claim.
#[derive(Debug)]
pub struct ClaimVolume {
    pub name: String,
    pub claim_name: String,
    pub read_only: bool,
}

pub struct ClaimVolumeView {
    pub name: Seq<char>,
    pub claim_name: Seq<char>,
    pub read_only: bool,
}

impl View for ClaimVolume {
    type V = ClaimVolumeView;

    open spec fn view(&self) -> ClaimVolumeView {
        ClaimVolumeView { name: self.name@, claim_name: self.claim_name@, read_only: self.read_only }
    }
}

#[derive(Debug)]
pub struct Label {
    pub key: String,
    pub value: String,
}

/// The pod to submit: the cluster completes `generate_name` into a unique name.
#[derive(Debug)]
pub struct PodDescriptor {
    pub generate_name: String,
    pub namespace: String,
    pub labels: Vec<Label>,
    pub volume: ClaimVolume,
    pub containers: Vec<ContainerSpec>,
}

pub struct PodDescriptorView {
    pub generate_name: Seq<char>,
    pub namespace: Seq<char>,
    pub labels: Seq<(Seq<char>, Seq<char>)>,
    pub volume: ClaimVolumeView,
    pub containers: Seq<ContainerView>,
}

impl View for PodDescriptor {
    type V = PodDescriptorView;

    open spec fn view(&self) -> PodDescriptorView {
        PodDescriptorView {
            generate_name: self.generate_name@,
            namespace: self.namespace@,
            labels: self.labels@.map_values(|l: Label| (l.key@, l.value@)),
            volume: self.volume@,
            containers: self.containers@.map_values(|c: ContainerSpec| c@),
        }
    }
}

pub open spec fn key_view(key: Option<&String>) -> Option<Seq<char>> {
    match key {
        Some(k) => Some(k@),
        None => None,
    }
}

/// A template container with the claim mounted at the data path and, when a
/// key is given, the public key added to its environment.
pub open spec fn patched_container(
    c: ContainerView,
    read_only: bool,
    key: Option<Seq<char>>,
) -> ContainerView {
    ContainerView {
        name: c.name,
        env: match key {
            Some(k) => c.env.push(EnvVarView { name: public_key_var(), value: k }),
            None => c.env,
        },
        mounts: c.mounts.push(
            VolumeMountView { name: data_volume_name(), mount_path: data_mount_path(), read_only },
        ),
    }
}

/// The descriptor built from a template for one claim.
pub open spec fn descriptor_of(
    template: Seq<ContainerView>,
    namespace: Seq<char>,
    claim: Seq<char>,
    read_only: bool,
    key: Option<Seq<char>>,
) -> PodDescriptorView {
    PodDescriptorView {
        generate_name: name_prefix() + claim + "-"@,
        namespace,
        labels: seq![(marker_key(), marker_active())],
        volume: ClaimVolumeView { name: data_volume_name(), claim_name: claim, read_only },
        containers: template.map_values(|c: ContainerView| patched_container(c, read_only, key)),
    }
}

fn patch_container(c: ContainerSpec, read_only: bool, key: Option<&String>) -> (r: ContainerSpec)
    ensures
        r@ == patched_container(c@, read_only, key_view(key)),
{
    let ContainerSpec { name, mut env, mut mounts } = c;
    let ghost env0 = env@;
    let ghost mounts0 = mounts@;
    match key {
        Some(k) => {
            env.push(EnvVar { name: String::from_str("PUBLIC_KEY"), value: k.clone() });
            assert(env@.map_values(|e: EnvVar| e@) =~= env0.map_values(|e: EnvVar| e@).push(
                EnvVarView { name: public_key_var(), value: k@ },
            ));
        },
        None => {},
    }
    mounts.push(
        VolumeMount {
            name: String::from_str("data"),
            mount_path: String::from_str("/data"),
            read_only,
        },
    );
    assert(mounts@.map_values(|m: VolumeMount| m@) =~= mounts0.map_values(|m: VolumeMount| m@).push(
        VolumeMountView { name: data_volume_name(), mount_path: data_mount_path(), read_only },
    ));
    ContainerSpec { name, env, mounts }
}

/// Builds the pod for a session: the claim as volume `data`, mounted at
/// `/data` in every template container with the requested access mode, the
/// public key (if any) in each container's environment, and the active marker.
pub fn build_pod(
    template: PodTemplate,
    namespace: &String,
    claim: &String,
    read_only: bool,
    public_key: Option<&String>,
) -> (r: PodDescriptor)
    ensures
        r@ == descriptor_of(template@, namespace@, claim@, read_only, key_view(public_key)),
{
    let ghost key = key_view(public_key);
    let mut rest = template.containers;
    let ghost all = rest@.map_values(|c: ContainerSpec| c@);
    let mut containers: Vec<ContainerSpec> = Vec::new();
    while rest.len() > 0
        invariant
            containers@.len() + rest@.len() == all.len(),
            forall|i: int| 0 <= i < containers@.len() ==>
                (#[trigger] containers@[i])@ == patched_container(all[i], read_only, key),
            forall|i: int| 0 <= i < rest@.len() ==>
                (#[trigger] rest@[i])@ == all[containers@.len() + i],
            key == key_view(public_key),
        decreases rest@.len(),
    {
        let c = rest.remove(0);
        let p = patch_container(c, read_only, public_key);
        containers.push(p);
    }
    let mut generate_name = String::from_str("pvc-inspect-");
    generate_name.append(claim.as_str());
    generate_name.append("-");
    let mut labels: Vec<Label> = Vec::new();
    labels.push(Label { key: marker_key_string(), value: marker_active_string() });
    let r = PodDescriptor {
        generate_name,
        namespace: namespace.clone(),
        labels,
        volume: ClaimVolume { name: String::from_str("data"), claim_name: claim.clone(), read_only },
        containers,
    };
    assert(r@.labels =~= seq![(marker_key(), marker_active())]);
    assert(r@.containers =~= all.map_values(|c: ContainerView| patched_container(c, read_only, key)));
    r
}

/// The builder is a function of its inputs: equal inputs give equal
/// descriptors, and two keys give descriptors that differ at most in the value
/// of the public-key variable.
pub proof fn build_is_deterministic(
    template: Seq<ContainerView>,
    namespace: Seq<char>,
    claim: Seq<char>,
    read_only: bool,
    key1: Option<Seq<char>>,
    key2: Option<Seq<char>>,
)
    ensures
        ({
            let d1 = descriptor_of(template, namespace, claim, read_only, key1);
            let d2 = descriptor_of(template, namespace, claim, read_only, key2);
            &&& key1 == key2 ==> d1 == d2
            &&& d1.generate_name == d2.generate_name
            &&& d1.namespace == d2.namespace
            &&& d1.labels == d2.labels
            &&& d1.volume == d2.volume
            &&& d1.containers.len() == d2.containers.len()
            &&& forall|i: int|
                0 <= i < d1.containers.len() ==> {
                    &&& (#[trigger] d1.containers[i]).name == d2.containers[i].name
                    &&& d1.containers[i].mounts == d2.containers[i].mounts
                    &&& (key1 is Some == key2 is Some) ==> {
                        &&& d1.containers[i].env.len() == d2.containers[i].env.len()
                        &&& forall|j: int|
                            0 <= j < d1.containers[i].env.len() ==> (
                            #[trigger] d1.containers[i].env[j]).name
                                == d2.containers[i].env[j].name
                        &&& forall|j: int|
                            0 <= j < d1.containers[i].env.len() && d1.containers[i].env[j]
                                != d2.containers[i].env[j] ==> j == d1.containers[i].env.len()
                                - 1
                    }
                }
        }),
{
    let d1 = descriptor_of(template, namespace, claim, read_only, key1);
    let d2 = descriptor_of(template, namespace, claim, read_only, key2);
    assert forall|i: int| 0 <= i < d1.containers.len() implies {
        &&& (#[trigger] d1.containers[i]).name == d2.containers[i].name
        &&& d1.containers[i].mounts == d2.containers[i].mounts
        &&& (key1 is Some == key2 is Some) ==> {
            &&& d1.containers[i].env.len() == d2.containers[i].env.len()
            &&& forall|j: int|
                0 <= j < d1.containers[i].env.len() ==> (#[trigger] d1.containers[i].env[j]).name
                    == d2.containers[i].env[j].name
            &&& forall|j: int|
                0 <= j < d1.containers[i].env.len() && d1.containers[i].env[j]
                    != d2.containers[i].env[j] ==> j == d1.containers[i].env.len() - 1
        }
    } by {
        let c = template[i];
        assert(d1.containers[i] == patched_container(c, read_only, key1));
        assert(d2.containers[i] == patched_container(c, read_only, key2));
    }
}

/// The access mode reaches the volume and every mount of the claim: a
/// read-write build marks them writable, a read-only build read-only.
pub proof fn access_mode_round_trip(
    template: Seq<ContainerView>,
    namespace: Seq<char>,
    claim: Seq<char>,
    read_only: bool,
    key: Option<Seq<char>>,
)
    ensures
        ({
            let d = descriptor_of(template, namespace, claim, read_only, key);
            &&& d.volume.read_only == read_only
            &&& forall|i: int|
                0 <= i < d.containers.len() ==> (#[trigger] d.containers[i]).mounts.last()
                    == VolumeMountView {
                    name: data_volume_name(),
                    mount_path: data_mount_path(),
                    read_only,
                }
        }),
{
}

} // verus!
