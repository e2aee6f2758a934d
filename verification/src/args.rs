//! Construction of the argument lists handed to the external cluster CLI.
//! Each builder states the exact argument sequence it produces, so the
//! caller only passes the list on to the process it spawns.

use vstd::prelude::*;

use crate::text::{dec_digits, u64_string};

verus! {

/// The character sequences of a list of strings, in order.
pub open spec fn views_of(v: Seq<String>) -> Seq<Seq<char>> {
    v.map_values(|s: String| s@)
}

/// Arguments of the listing query: scoped to one namespace when one is
/// given, to all namespaces otherwise, always requesting JSON output.
pub fn list_pods_args(namespace: &Option<String>) -> (r: Vec<String>)
    ensures
        (*namespace) matches Some(ns) ==> views_of(r@) == seq![
            "get"@,
            "pods"@,
            "-n"@,
            ns@,
            "-o"@,
            "json"@,
        ],
        namespace.is_none() ==> views_of(r@) == seq![
            "get"@,
            "pods"@,
            "--all-namespaces"@,
            "-o"@,
            "json"@,
        ],
{
    let mut r: Vec<String> = Vec::new();
    r.push(String::from_str("get"));
    r.push(String::from_str("pods"));
    match namespace {
        Option::Some(ns) => {
            r.push(String::from_str("-n"));
            r.push(ns.clone());
        },
        Option::None => {
            r.push(String::from_str("--all-namespaces"));
        },
    }
    r.push(String::from_str("-o"));
    r.push(String::from_str("json"));
    proof {
        if namespace is Some {
            assert(views_of(r@) =~~= seq![
                "get"@,
                "pods"@,
                "-n"@,
                namespace->Some_0@,
                "-o"@,
                "json"@,
            ]);
        } else {
            assert(views_of(r@) =~~= seq!["get"@, "pods"@, "--all-namespaces"@, "-o"@, "json"@]);
        }
    }
    r
}

/// Arguments of the resource-usage listing, scoped like the pod listing.
pub fn top_args(namespace: &Option<String>) -> (r: Vec<String>)
    ensures
        (*namespace) matches Some(ns) ==> views_of(r@) == seq!["top"@, "pods"@, "-n"@, ns@],
        namespace.is_none() ==> views_of(r@) == seq!["top"@, "pods"@, "--all-namespaces"@],
{
    let mut r: Vec<String> = Vec::new();
    r.push(String::from_str("top"));
    r.push(String::from_str("pods"));
    match namespace {
        Option::Some(ns) => {
            r.push(String::from_str("-n"));
            r.push(ns.clone());
        },
        Option::None => {
            r.push(String::from_str("--all-namespaces"));
        },
    }
    proof {
        if namespace is Some {
            assert(views_of(r@) =~~= seq!["top"@, "pods"@, "-n"@, namespace->Some_0@]);
        } else {
            assert(views_of(r@) =~~= seq!["top"@, "pods"@, "--all-namespaces"@]);
        }
    }
    r
}

/// Arguments of the log request against a resolved pod: the tail length in
/// decimal, and `-f` appended exactly when the logs are to be followed.
pub fn logs_args(pod: &str, namespace: &str, follow: bool, tail: u32) -> (r: Vec<String>)
    ensures
        !follow ==> views_of(r@) == seq![
            "logs"@,
            pod@,
            "-n"@,
            namespace@,
            "--tail"@,
            dec_digits(tail as int),
        ],
        follow ==> views_of(r@) == seq![
            "logs"@,
            pod@,
            "-n"@,
            namespace@,
            "--tail"@,
            dec_digits(tail as int),
            "-f"@,
        ],
{
    let mut r: Vec<String> = Vec::new();
    r.push(String::from_str("logs"));
    r.push(pod.to_owned());
    r.push(String::from_str("-n"));
    r.push(namespace.to_owned());
    r.push(String::from_str("--tail"));
    r.push(u64_string(tail as u64));
    if follow {
        r.push(String::from_str("-f"));
        proof {
            assert(views_of(r@) =~~= seq![
                "logs"@,
                pod@,
                "-n"@,
                namespace@,
                "--tail"@,
                dec_digits(tail as int),
                "-f"@,
            ]);
        }
    } else {
        proof {
            assert(views_of(r@) =~~= seq![
                "logs"@,
                pod@,
                "-n"@,
                namespace@,
                "--tail"@,
                dec_digits(tail as int),
            ]);
        }
    }
    r
}

/// Arguments of an interactive command execution in a resolved pod; the
/// same shape serves the shell attempts, with the shell as the command.
pub fn exec_args(pod: &str, namespace: &str, command: &str) -> (r: Vec<String>)
    ensures
        views_of(r@) == seq!["exec"@, "-it"@, pod@, "-n"@, namespace@, "--"@, command@],
{
    let mut r: Vec<String> = Vec::new();
    r.push(String::from_str("exec"));
    r.push(String::from_str("-it"));
    r.push(pod.to_owned());
    r.push(String::from_str("-n"));
    r.push(namespace.to_owned());
    r.push(String::from_str("--"));
    r.push(command.to_owned());
    proof {
        assert(views_of(r@) =~~= seq![
            "exec"@,
            "-it"@,
            pod@,
            "-n"@,
            namespace@,
            "--"@,
            command@,
        ]);
    }
    r
}

/// Arguments of the describe request against a resolved pod.
pub fn describe_args(pod: &str, namespace: &str) -> (r: Vec<String>)
    ensures
        views_of(r@) == seq!["describe"@, "pod"@, pod@, "-n"@, namespace@],
{
    let mut r: Vec<String> = Vec::new();
    r.push(String::from_str("describe"));
    r.push(String::from_str("pod"));
    r.push(pod.to_owned());
    r.push(String::from_str("-n"));
    r.push(namespace.to_owned());
    proof {
        assert(views_of(r@) =~~= seq!["describe"@, "pod"@, pod@, "-n"@, namespace@]);
    }
    r
}

/// Arguments of the port-forward request: the local and pod ports joined
/// by a colon, each in decimal.
pub fn forward_args(pod: &str, local_port: u16, pod_port: u16, namespace: &str) -> (r: Vec<
    String,
>)
    ensures
        views_of(r@) == seq![
            "port-forward"@,
            pod@,
            dec_digits(local_port as int) + seq![':'] + dec_digits(pod_port as int),
            "-n"@,
            namespace@,
        ],
{
    proof {
        reveal_strlit(":");
    }
    let mut pair = u64_string(local_port as u64);
    pair.append(":");
    let pod_port_str = u64_string(pod_port as u64);
    pair.append(pod_port_str.as_str());
    proof {
        assert(pair@ =~= dec_digits(local_port as int) + seq![':'] + dec_digits(pod_port as int));
    }
    let mut r: Vec<String> = Vec::new();
    r.push(String::from_str("port-forward"));
    r.push(pod.to_owned());
    r.push(pair);
    r.push(String::from_str("-n"));
    r.push(namespace.to_owned());
    proof {
        assert(views_of(r@) =~~= seq![
            "port-forward"@,
            pod@,
            dec_digits(local_port as int) + seq![':'] + dec_digits(pod_port as int),
            "-n"@,
            namespace@,
        ]);
    }
    r
}

/// Arguments of the pod deletion that a restart request issues.
pub fn delete_args(pod: &str, namespace: &str) -> (r: Vec<String>)
    ensures
        views_of(r@) == seq!["delete"@, "pod"@, pod@, "-n"@, namespace@],
{
    let mut r: Vec<String> = Vec::new();
    r.push(String::from_str("delete"));
    r.push(String::from_str("pod"));
    r.push(pod.to_owned());
    r.push(String::from_str("-n"));
    r.push(namespace.to_owned());
    proof {
        assert(views_of(r@) =~~= seq!["delete"@, "pod"@, pod@, "-n"@, namespace@]);
    }
    r
}

/// Arguments of the event listing for a resolved pod: filtered to events
/// about that pod, sorted by their last timestamp.
pub fn events_args(pod: &str, namespace: &str) -> (r: Vec<String>)
    ensures
        views_of(r@) == seq![
            "get"@,
            "events"@,
            "-n"@,
            namespace@,
            "--field-selector"@,
            "involvedObject.name="@ + pod@,
            "--sort-by"@,
            ".lastTimestamp"@,
        ],
{
    let mut selector = String::from_str("involvedObject.name=");
    selector.append(pod);
    let mut r: Vec<String> = Vec::new();
    r.push(String::from_str("get"));
    r.push(String::from_str("events"));
    r.push(String::from_str("-n"));
    r.push(namespace.to_owned());
    r.push(String::from_str("--field-selector"));
    r.push(selector);
    r.push(String::from_str("--sort-by"));
    r.push(String::from_str(".lastTimestamp"));
    proof {
        assert(views_of(r@) =~~= seq![
            "get"@,
            "events"@,
            "-n"@,
            namespace@,
            "--field-selector"@,
            "involvedObject.name="@ + pod@,
            "--sort-by"@,
            ".lastTimestamp"@,
        ]);
    }
    r
}

/// The name of an ephemeral debug pod, unique per creation second.
pub fn debug_pod_name(epoch_secs: u64) -> (r: String)
    ensures
        r@ == "debug-"@ + dec_digits(epoch_secs as int),
{
    let mut r = String::from_str("debug-");
    let digits = u64_string(epoch_secs);
    r.append(digits.as_str());
    r
}

/// Arguments of the ephemeral debug-pod creation: an interactive one-shot
/// pod whose removal on exit is delegated to the external system.
pub fn debug_args(pod_name: &str, image: &str, namespace: &str) -> (r: Vec<String>)
    ensures
        views_of(r@) == seq![
            "run"@,
            pod_name@,
            "--image"@,
            image@,
            "-n"@,
            namespace@,
            "--restart=Never"@,
            "--rm"@,
            "-it"@,
            "--"@,
            "/bin/sh"@,
        ],
{
    let mut r: Vec<String> = Vec::new();
    r.push(String::from_str("run"));
    r.push(pod_name.to_owned());
    r.push(String::from_str("--image"));
    r.push(image.to_owned());
    r.push(String::from_str("-n"));
    r.push(namespace.to_owned());
    r.push(String::from_str("--restart=Never"));
    r.push(String::from_str("--rm"));
    r.push(String::from_str("-it"));
    r.push(String::from_str("--"));
    r.push(String::from_str("/bin/sh"));
    proof {
        assert(views_of(r@) =~~= seq![
            "run"@,
            pod_name@,
            "--image"@,
            image@,
            "-n"@,
            namespace@,
            "--restart=Never"@,
            "--rm"@,
            "-it"@,
            "--"@,
            "/bin/sh"@,
        ]);
    }
    r
}

/// The shells the interactive-shell command attempts, in order: bash
/// first, plain sh as the fallback.
pub fn shell_candidates() -> (r: Vec<String>)
    ensures
        views_of(r@) == seq!["/bin/bash"@, "/bin/sh"@],
{
    let mut r: Vec<String> = Vec::new();
    r.push(String::from_str("/bin/bash"));
    r.push(String::from_str("/bin/sh"));
    proof {
        assert(views_of(r@) =~~= seq!["/bin/bash"@, "/bin/sh"@]);
    }
    r
}

/// Whether the attempt at `index` of `total` ordered alternatives shows
/// its diagnostics: only the final attempt does; every earlier one fails
/// silently to its successor.
pub fn diagnostics_visible(index: usize, total: usize) -> (r: bool)
    requires
        index < total,
    ensures
        r == (index == total - 1),
{
    index == total - 1
}

} // verus!
