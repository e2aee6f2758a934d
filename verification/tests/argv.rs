use kdbg::args::{
    debug_args, debug_pod_name, delete_args, describe_args, diagnostics_visible, events_args,
    exec_args, forward_args, list_pods_args, logs_args, shell_candidates, top_args,
};

#[test]
fn list_args_scope_by_namespace() {
    assert_eq!(
        list_pods_args(&Some("prod".to_string())),
        vec!["get", "pods", "-n", "prod", "-o", "json"]
    );
    assert_eq!(
        list_pods_args(&None),
        vec!["get", "pods", "--all-namespaces", "-o", "json"]
    );
}

#[test]
fn top_args_scope_by_namespace() {
    assert_eq!(top_args(&Some("prod".to_string())), vec!["top", "pods", "-n", "prod"]);
    assert_eq!(top_args(&None), vec!["top", "pods", "--all-namespaces"]);
}

#[test]
fn logs_args_carry_tail_and_follow() {
    assert_eq!(
        logs_args("web-1", "prod", false, 100),
        vec!["logs", "web-1", "-n", "prod", "--tail", "100"]
    );
    assert_eq!(
        logs_args("web-1", "prod", true, 25),
        vec!["logs", "web-1", "-n", "prod", "--tail", "25", "-f"]
    );
}

#[test]
fn exec_and_describe_and_delete_args() {
    assert_eq!(
        exec_args("web-1", "prod", "/bin/sh"),
        vec!["exec", "-it", "web-1", "-n", "prod", "--", "/bin/sh"]
    );
    assert_eq!(
        describe_args("web-1", "prod"),
        vec!["describe", "pod", "web-1", "-n", "prod"]
    );
    assert_eq!(delete_args("web-1", "prod"), vec!["delete", "pod", "web-1", "-n", "prod"]);
}

#[test]
fn forward_args_join_ports_with_colon() {
    assert_eq!(
        forward_args("web-1", 8080, 80, "prod"),
        vec!["port-forward", "web-1", "8080:80", "-n", "prod"]
    );
}

#[test]
fn events_args_filter_by_pod() {
    assert_eq!(
        events_args("web-1", "prod"),
        vec![
            "get",
            "events",
            "-n",
            "prod",
            "--field-selector",
            "involvedObject.name=web-1",
            "--sort-by",
            ".lastTimestamp",
        ]
    );
}

#[test]
fn debug_pod_creation_args() {
    assert_eq!(debug_pod_name(1700000000), "debug-1700000000");
    assert_eq!(
        debug_args("debug-1700000000", "busybox", "default"),
        vec![
            "run",
            "debug-1700000000",
            "--image",
            "busybox",
            "-n",
            "default",
            "--restart=Never",
            "--rm",
            "-it",
            "--",
            "/bin/sh",
        ]
    );
}

#[test]
fn shell_attempts_in_order_with_final_diagnostics() {
    let shells = shell_candidates();
    assert_eq!(shells, vec!["/bin/bash", "/bin/sh"]);
    assert!(!diagnostics_visible(0, shells.len()));
    assert!(diagnostics_visible(1, shells.len()));
}
