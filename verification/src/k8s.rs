//! The test driver's Kubernetes bookkeeping: its settings, how it finds the
//! coordinator's pod and config map, how it watches the pod restart and the
//! patches it sends.

use vstd::prelude::*;
use vstd::utf8::encode_utf8;
use crate::json::{append_bytes, json_encode_str, json_string};

verus! {

/// The image the coordinator runs when the settings name none.
pub open spec fn default_image_text() -> Seq<char> {
    "xaynetwork/xaynet:development"@
}

/// See [`default_image_text`].
pub fn default_image() -> (image: String)
    ensures
        image@ == default_image_text(),
{
    String::from_str("xaynetwork/xaynet:development")
}

/// Where the coordinator runs in the cluster.
pub struct K8sSettings {
    /// The namespace of the coordinator's pod.
    pub namespace: String,
    /// The value of the coordinator pod's `app` label.
    pub app_label: String,
    /// The path of the coordinator's configuration file.
    pub config: String,
    /// The image the coordinator is patched to.
    pub image: String,
}

/// The label selector `app=<app_label>`.
pub open spec fn app_selector(app_label: Seq<char>) -> Seq<char> {
    "app="@ + app_label
}

impl K8sSettings {
    /// Settings as read from the settings file; a missing image is the
    /// default image.
    pub fn new(namespace: String, app_label: String, config: String, image: Option<String>) -> (s:
        K8sSettings)
        ensures
            s.namespace == namespace,
            s.app_label == app_label,
            s.config == config,
            match image {
                Some(i) => s.image == i,
                None => s.image@ == default_image_text(),
            },
    {
        let image = match image {
            Some(i) => i,
            None => default_image(),
        };
        K8sSettings { namespace, app_label, config, image }
    }

    /// The label selector of the coordinator's pod.
    pub fn coordinator_label(&self) -> (label: String)
        ensures
            label@ == app_selector(self.app_label@),
    {
        let mut label = String::from_str("app=");
        label.append(self.app_label.as_str());
        label
    }
}

/// Errors of the Kubernetes bookkeeping.
#[derive(Debug)]
pub enum K8sError {
    /// No pod carries the label.
    PodNotFound(String),
    /// A field of the pod that is needed is missing.
    MissingField(&'static str),
    /// A patch could not be encoded.
    Json(serde_json::Error),
}

impl K8sError {
    /// The text that describes the error; an encoding error gets a fixed
    /// text, its details stay in the `serde_json` error it holds.
    pub open spec fn description(&self) -> Seq<char> {
        match self {
            K8sError::PodNotFound(label) => "Cannot find pod with label: "@ + label@,
            K8sError::MissingField(field) => "Cannot `"@ + field@ + "` field"@,
            K8sError::Json(_) => "JSON encoding failed"@,
        }
    }

    /// See [`K8sError::description`].
    pub fn message(&self) -> (m: String)
        ensures
            m@ == self.description(),
    {
        match self {
            K8sError::PodNotFound(label) => {
                let mut m = String::from_str("Cannot find pod with label: ");
                m.append(label.as_str());
                m
            },
            K8sError::MissingField(field) => {
                let mut m = String::from_str("Cannot `");
                m.append(field);
                m.append("` field");
                m
            },
            K8sError::Json(_) => String::from_str("JSON encoding failed"),
        }
    }
}

/// The first of the pods listed for `label`, or `PodNotFound(label)` when
/// none is.
pub fn find_pod<T>(pods: Vec<T>, label: &str) -> (r: Result<T, K8sError>)
    ensures
        pods@.len() > 0 ==> r == Ok::<T, K8sError>(pods@[0]),
        pods@.len() == 0 ==> (r matches Err(K8sError::PodNotFound(l)) && l@ == label@),
{
    let mut pods = pods;
    if pods.len() == 0 {
        Err(K8sError::PodNotFound(String::from_str(label)))
    } else {
        Ok(pods.remove(0))
    }
}

/// The config map a volume refers to.
pub struct ConfigMapVolumeSource {
    pub name: Option<String>,
}

/// A volume of a pod.
pub struct Volume {
    pub config_map: Option<ConfigMapVolumeSource>,
}

/// The part of a pod's specification that the driver reads.
pub struct PodSpec {
    pub volumes: Option<Vec<Volume>>,
}

/// A pod as the driver reads it: its name and specification.
pub struct Pod {
    pub name: String,
    pub spec: Option<PodSpec>,
}

/// Where finding the coordinator's config map stops, if it does: the
/// missing field, else `None`.
pub open spec fn missing_config_map_field(pod: Pod) -> Option<&'static str> {
    match pod.spec {
        None => Some("spec"),
        Some(spec) => match spec.volumes {
            None => Some("volumes"),
            Some(volumes) => if volumes@.len() < 2 {
                Some("config_map")
            } else {
                match volumes@[1].config_map {
                    None => Some("config_map"),
                    Some(source) => match source.name {
                        None => Some("name"),
                        Some(_) => None,
                    },
                }
            },
        },
    }
}

/// The name of the config map that the pod's second volume refers to,
/// when there is one.
pub open spec fn config_map_name(pod: Pod) -> Seq<char> {
    pod.spec->Some_0.volumes->Some_0@[1].config_map->Some_0.name->Some_0@
}

/// The coordinator pod's name and the name of the config map that its
/// second volume mounts; `MissingField` names the first field on the way
/// that is missing.
pub fn reveal_pod_and_config_map_id(pod: Pod) -> (r: Result<(String, String), K8sError>)
    ensures
        match missing_config_map_field(pod) {
            Some(field) => r matches Err(K8sError::MissingField(f)) && f@ == field@,
            None => r matches Ok((pod_id, config_map_id)) && pod_id == pod.name
                && config_map_id@ == config_map_name(pod),
        },
{
    let Pod { name, spec } = pod;
    let spec = match spec {
        Some(s) => s,
        None => return Err(K8sError::MissingField("spec")),
    };
    let volumes = match spec.volumes {
        Some(v) => v,
        None => return Err(K8sError::MissingField("volumes")),
    };
    if volumes.len() < 2 {
        return Err(K8sError::MissingField("config_map"));
    }
    let source = match &volumes[1].config_map {
        Some(s) => s,
        None => return Err(K8sError::MissingField("config_map")),
    };
    let config_map_id = match &source.name {
        Some(n) => n.clone(),
        None => return Err(K8sError::MissingField("name")),
    };
    Ok((name, config_map_id))
}

/// Whenever the pod has a specification with at least two volumes, the
/// second of which refers to a config map with a name, that name is the one
/// found, whatever the other volumes are.
pub proof fn lemma_second_volume_config_map(pod: Pod)
    requires
        pod.spec is Some,
        pod.spec->Some_0.volumes is Some,
        pod.spec->Some_0.volumes->Some_0@.len() >= 2,
        pod.spec->Some_0.volumes->Some_0@[1].config_map is Some,
        pod.spec->Some_0.volumes->Some_0@[1].config_map->Some_0.name is Some,
    ensures
        missing_config_map_field(pod) is None,
        config_map_name(pod) == pod.spec->Some_0.volumes->Some_0@[1].config_map->Some_0.name->Some_0@,
{
}

/// A watch event on the coordinator's pods.
pub enum PodEvent {
    Added(String),
    /// A pod changed; with its name and its phase, if it has one.
    Modified(String, Option<String>),
    Deleted(String),
    Error(String),
    Other,
}

/// Whether watching the pods ends at `event`: it does when a pod was
/// modified and is in the phase `Running` (a missing phase counts as
/// empty), and gives that pod's name.
pub open spec fn restarted_pod(event: PodEvent) -> Option<Seq<char>> {
    match event {
        PodEvent::Modified(name, Some(phase)) => if phase@ == "Running"@ {
            Some(name@)
        } else {
            None
        },
        _ => None,
    }
}

/// See [`restarted_pod`].
pub fn restarted_pod_name(event: PodEvent) -> (r: Option<String>)
    ensures
        match restarted_pod(event) {
            Some(name) => r matches Some(n) && n@ == name,
            None => r is None,
        },
{
    proof {
        reveal_strlit("Running");
    }
    match event {
        PodEvent::Modified(name, Some(phase)) => {
            let running = String::from_str("Running");
            if phase == running {
                Some(name)
            } else {
                None
            }
        },
        _ => None,
    }
}

/// The strategic-merge patch that puts `content` into a config map as its
/// `config.toml`.
pub open spec fn config_map_patch_bytes(content: Seq<char>) -> Seq<u8> {
    encode_utf8("{\"data\":{\"config.toml\":"@) + json_string(content) + encode_utf8("}}"@)
}

/// The strategic-merge patch that sets the image of the `coordinator`
/// container.
pub open spec fn image_patch_bytes(image: Seq<char>) -> Seq<u8> {
    encode_utf8("{\"spec\":{\"containers\":[{\"name\":\"coordinator\",\"image\":"@) + json_string(
        image,
    ) + encode_utf8("}]}}"@)
}

/// See [`config_map_patch_bytes`].
pub fn config_map_patch(content: &str) -> (r: Result<Vec<u8>, K8sError>)
    ensures
        r matches Ok(bytes) && bytes@ == config_map_patch_bytes(content@),
{
    let encoded = match json_encode_str(content) {
        Ok(b) => b,
        Err(e) => return Err(K8sError::Json(e)),
    };
    let mut out: Vec<u8> = Vec::new();
    append_bytes(&mut out, "{\"data\":{\"config.toml\":".as_bytes());
    append_bytes(&mut out, encoded.as_slice());
    append_bytes(&mut out, "}}".as_bytes());
    assert(out@ =~= config_map_patch_bytes(content@));
    Ok(out)
}

/// See [`image_patch_bytes`].
pub fn image_patch(image: &str) -> (r: Result<Vec<u8>, K8sError>)
    ensures
        r matches Ok(bytes) && bytes@ == image_patch_bytes(image@),
{
    let encoded = match json_encode_str(image) {
        Ok(b) => b,
        Err(e) => return Err(K8sError::Json(e)),
    };
    let mut out: Vec<u8> = Vec::new();
    append_bytes(&mut out, "{\"spec\":{\"containers\":[{\"name\":\"coordinator\",\"image\":".as_bytes());
    append_bytes(&mut out, encoded.as_slice());
    append_bytes(&mut out, "}]}}".as_bytes());
    assert(out@ =~= image_patch_bytes(image@));
    Ok(out)
}

} // verus!
