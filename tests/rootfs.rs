use docker_starter_rust::rootfs::{plan_root, root_layout, ContainerSpec, DEV_DIR, NULL_DEVICE};

fn argv(items: &[&str]) -> Vec<String> {
    items.iter().map(|s| s.to_string()).collect()
}

#[test]
fn parse_takes_command_and_its_arguments() {
    let spec = ContainerSpec::parse(&argv(&[
        "mydocker",
        "run",
        "ubuntu:latest",
        "/usr/local/bin/docker-explorer",
        "echo",
        "hey",
    ]));
    assert_eq!(spec.command, "/usr/local/bin/docker-explorer");
    assert_eq!(spec.args, vec!["echo".to_string(), "hey".to_string()]);
}

#[test]
fn parse_without_arguments() {
    let spec = ContainerSpec::parse(&argv(&["mydocker", "run", "img", "/bin/true"]));
    assert_eq!(spec.command, "/bin/true");
    assert!(spec.args.is_empty());
}

#[test]
fn plan_root_uses_basename() {
    let spec = ContainerSpec::parse(&argv(&["d", "run", "img", "/usr/local/bin/docker-explorer", "ls"]));
    let layout = plan_root(&spec).expect("a file name");
    assert_eq!(layout.binary_name, "docker-explorer");
    assert_eq!(layout.command, "/docker-explorer");
}

#[test]
fn plan_root_relative_path() {
    let spec = ContainerSpec::parse(&argv(&["d", "run", "img", "prog"]));
    let layout = plan_root(&spec).expect("a file name");
    assert_eq!(layout.binary_name, "prog");
    assert_eq!(layout.command, "/prog");
}

#[test]
fn plan_root_without_basename() {
    for path in ["/", "..", "/usr/.."] {
        let spec = ContainerSpec::parse(&argv(&["d", "run", "img", path]));
        assert!(plan_root(&spec).is_none(), "{path}");
    }
}

#[test]
fn root_layout_names() {
    assert_eq!(DEV_DIR, "dev");
    assert_eq!(NULL_DEVICE, "dev/null");
}

fn planned_name(path: &str) -> Option<String> {
    let spec = ContainerSpec::parse(&argv(&["d", "run", "img", path]));
    plan_root(&spec).map(|l| l.binary_name)
}

#[test]
fn plan_root_passes_over_dot_and_empty_components() {
    assert_eq!(planned_name("bin/ls/."), Some("ls".to_string()));
    assert_eq!(planned_name("a//b/"), Some("b".to_string()));
    assert_eq!(planned_name("./prog"), Some("prog".to_string()));
    assert_eq!(planned_name("prog."), Some("prog.".to_string()));
    assert_eq!(planned_name("./"), None);
    assert_eq!(planned_name("."), None);
    assert_eq!(planned_name("//"), None);
    assert_eq!(planned_name(""), None);
}

#[test]
fn root_layout_prefixes_slash() {
    let l = root_layout("sh".to_string());
    assert_eq!(l.binary_name, "sh");
    assert_eq!(l.command, "/sh");
}
