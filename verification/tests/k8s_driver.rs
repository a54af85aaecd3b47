use xaynet_e2e::k8s::{
    config_map_patch, default_image, find_pod, image_patch, restarted_pod_name,
    reveal_pod_and_config_map_id, ConfigMapVolumeSource, K8sError, K8sSettings, Pod, PodEvent,
    PodSpec, Volume,
};

#[test]
fn settings_default_image() {
    assert_eq!(default_image(), "xaynetwork/xaynet:development");
    let s = K8sSettings::new("ns".into(), "coordinator".into(), "c.toml".into(), None);
    assert_eq!(s.image, "xaynetwork/xaynet:development");
    let s = K8sSettings::new("ns".into(), "coordinator".into(), "c.toml".into(), Some("img:1".into()));
    assert_eq!(s.image, "img:1");
    assert_eq!(s.coordinator_label(), "app=coordinator");
}

#[test]
fn first_pod_or_error() {
    assert_eq!(find_pod(vec![3, 4], "app=x").unwrap(), 3);
    let e = find_pod::<u8>(vec![], "app=x").unwrap_err();
    assert_eq!(e.message(), "Cannot find pod with label: app=x");
}

fn volume(name: Option<&str>) -> Volume {
    Volume { config_map: Some(ConfigMapVolumeSource { name: name.map(|n| n.to_string()) }) }
}

fn pod(spec: Option<PodSpec>) -> Pod {
    Pod { name: "coordinator-0".to_string(), spec }
}

fn missing(p: Pod) -> String {
    reveal_pod_and_config_map_id(p).unwrap_err().message()
}

#[test]
fn config_map_of_second_volume() {
    let p = pod(Some(PodSpec { volumes: Some(vec![volume(Some("first")), volume(Some("config"))]) }));
    assert_eq!(
        reveal_pod_and_config_map_id(p).unwrap(),
        ("coordinator-0".to_string(), "config".to_string())
    );
}

#[test]
fn missing_fields_are_named() {
    assert_eq!(missing(pod(None)), "Cannot `spec` field");
    assert_eq!(missing(pod(Some(PodSpec { volumes: None }))), "Cannot `volumes` field");
    assert_eq!(missing(pod(Some(PodSpec { volumes: Some(vec![volume(Some("a"))]) }))), "Cannot `config_map` field");
    let no_map = Volume { config_map: None };
    assert_eq!(
        missing(pod(Some(PodSpec { volumes: Some(vec![volume(Some("a")), no_map]) }))),
        "Cannot `config_map` field"
    );
    assert_eq!(
        missing(pod(Some(PodSpec { volumes: Some(vec![volume(Some("a")), volume(None)]) }))),
        "Cannot `name` field"
    );
    assert!(matches!(K8sError::MissingField("x").message().as_str(), "Cannot `x` field"));
}

#[test]
fn watch_ends_when_pod_runs() {
    assert_eq!(
        restarted_pod_name(PodEvent::Modified("p1".into(), Some("Running".into()))),
        Some("p1".to_string())
    );
    assert_eq!(restarted_pod_name(PodEvent::Modified("p1".into(), Some("Pending".into()))), None);
    assert_eq!(restarted_pod_name(PodEvent::Modified("p1".into(), None)), None);
    assert_eq!(restarted_pod_name(PodEvent::Added("p1".into())), None);
    assert_eq!(restarted_pod_name(PodEvent::Deleted("p1".into())), None);
    assert_eq!(restarted_pod_name(PodEvent::Other), None);
}

#[test]
fn config_map_patch_document() {
    let bytes = config_map_patch("a = \"b\"\nc\\d\t\u{1}é").unwrap();
    assert_eq!(
        String::from_utf8(bytes).unwrap(),
        "{\"data\":{\"config.toml\":\"a = \\\"b\\\"\\nc\\\\d\\t\\u0001é\"}}"
    );
}

#[test]
fn image_patch_document() {
    let bytes = image_patch("xaynetwork/xaynet:v1").unwrap();
    assert_eq!(
        String::from_utf8(bytes).unwrap(),
        "{\"spec\":{\"containers\":[{\"name\":\"coordinator\",\"image\":\"xaynetwork/xaynet:v1\"}]}}"
    );
}

#[test]
fn patch_is_valid_json_with_the_content() {
    let content = "[model]\nsize = 4\n";
    let bytes = config_map_patch(content).unwrap();
    let v: serde_json::Value = serde_json::from_slice(&bytes).unwrap();
    assert_eq!(v["data"]["config.toml"], content);
}
