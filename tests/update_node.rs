use manta::boot::{
    current_boot_image, first_boot_parameters, plan_boot, BootParameters,
};
use manta::error::RunError;
use manta::membership::{find_group, validate_group_scope, validate_membership, ResourceGroup};
use manta::resolve::{
    first_image_id, get_image_id_from_bos_sessiontemplate_list, image_id_candidates,
    next_image_lookup, resolve_configuration, start_image_lookup, BootSet, Configuration,
    DeploymentTemplate, Image, ImageLookup,
};
use manta::run::{
    begin, power_operation, step, write_plan, Action, Event, PowerKind, PowerOperation, Stage,
    WritePlan,
};
use manta::select::configurations_of_groups;
use manta::settings::may_unset_group;
use manta::storage_path::{parse_boot_set_path, parse_image_id, StoragePathError};

fn strings(v: &[&str]) -> Vec<String> {
    v.iter().map(|s| s.to_string()).collect()
}

fn group(name: &str, members: &[&str]) -> ResourceGroup {
    ResourceGroup { name: name.to_string(), members: strings(members) }
}

fn boot_params(node: &str, image: &str) -> BootParameters {
    BootParameters {
        hosts: strings(&[node]),
        kernel: format!("s3://boot-images/{}/kernel", image),
        initrd: format!("s3://boot-images/{}/initrd", image),
        params: "console=ttyS0,115200".to_string(),
    }
}

fn template(name: &str, configuration: Option<&str>, paths: &[Option<&str>]) -> DeploymentTemplate {
    DeploymentTemplate {
        name: name.to_string(),
        configuration: configuration.map(|c| c.to_string()),
        boot_sets: paths
            .iter()
            .enumerate()
            .map(|(i, p)| BootSet { name: format!("set{}", i), path: p.map(|p| p.to_string()) })
            .collect(),
    }
}

/// File name of the boot-set artifact that the tests' templates point at.
fn artifact() -> String {
    "boot.json".to_string()
}

fn configuration(name: &str) -> Configuration {
    Configuration { name: name.to_string(), last_updated: "2023-01-01T00:00:00Z".to_string(), layers: vec![] }
}

/// Runs the write phase from `begin`, feeding `events`; returns every action.
fn drive(plan: WritePlan, events: &[Event]) -> (Stage, Vec<Action>) {
    let (mut stage, first) = begin(plan);
    let mut actions = vec![first];
    for e in events {
        let (s, a) = step(plan, stage, *e);
        stage = s;
        actions.push(a);
    }
    (stage, actions)
}

#[test]
fn restart_when_image_changes() {
    let current = boot_params("x1000c0s0b0n0", "img-111");
    let plan = plan_boot(current, &"img-222".to_string());
    assert!(plan.needs_restart);
    let updated = plan.updated.expect("updated boot parameters");
    assert_eq!(updated.hosts, strings(&["x1000c0s0b0n0"]));
    assert_eq!(updated.kernel, "s3://boot-images/img-222/kernel");
    assert_eq!(updated.initrd, "s3://boot-images/img-222/initrd");
    assert!(updated.params.ends_with(" root=craycps-s3:s3://boot-images/img-222/rootfs"));
    assert!(updated.params.starts_with("console=ttyS0,115200 "));

    let wp = write_plan(Some(plan.needs_restart), &Some("compute-v3".to_string()));
    let (stage, actions) = drive(
        wp,
        &[Event::Confirmed(true), Event::Succeeded, Event::Succeeded, Event::Succeeded, Event::Succeeded],
    );
    assert_eq!(
        actions,
        vec![
            Action::AskConfirmation,
            Action::PatchBootParameters,
            Action::SetDesiredConfiguration { apply_now: false },
            Action::PowerOff,
            Action::PowerOn,
            Action::Exit { code: 0 },
        ]
    );
    assert_eq!(stage, Stage::Done);
}

#[test]
fn no_restart_when_image_unchanged() {
    let current = boot_params("x1000c0s0b0n0", "img-111");
    let plan = plan_boot(current, &"img-111".to_string());
    assert!(!plan.needs_restart);
    assert!(plan.updated.is_none());
    let wp = write_plan(Some(plan.needs_restart), &Some("compute-v3".to_string()));
    let (stage, actions) = drive(wp, &[Event::Succeeded]);
    assert_eq!(
        actions,
        vec![Action::SetDesiredConfiguration { apply_now: true }, Action::Exit { code: 0 }]
    );
    assert_eq!(stage, Stage::Done);
    assert!(!actions.contains(&Action::AskConfirmation));
    assert!(!actions.contains(&Action::PowerOff));
    assert!(!actions.contains(&Action::PowerOn));
}

#[test]
fn node_outside_group_is_rejected() {
    let g = group("nodes-hsm1", &["a", "b", "c"]);
    let r = validate_membership(&g, &strings(&["a", "d"]));
    match r {
        Err(e) => {
            assert_eq!(e.offending, strings(&["d"]));
            assert_eq!(RunError::Validation(e).exit_code(), 1);
        }
        Ok(()) => panic!("node d is not a member"),
    }
}

#[test]
fn membership_inside_partial_outside() {
    let g = group("nodes-hsm1", &["a", "b", "c"]);
    assert!(validate_membership(&g, &strings(&["a", "b", "c"])).is_ok());
    assert!(validate_membership(&g, &strings(&["c", "a"])).is_ok());
    assert!(validate_membership(&g, &strings(&[])).is_ok());
    match validate_membership(&g, &strings(&["b", "x", "c", "y"])) {
        Err(e) => assert_eq!(e.offending, strings(&["x", "y"])),
        Ok(()) => panic!("x and y are not members"),
    }
    match validate_membership(&g, &strings(&["p", "q"])) {
        Err(e) => assert_eq!(e.offending, strings(&["p", "q"])),
        Ok(()) => panic!("p and q are not members"),
    }
}

#[test]
fn group_scope_absent_accepts_any_node() {
    assert!(validate_group_scope(None, &strings(&["z"])).is_ok());
    let g = group("nodes-hsm1", &["a"]);
    assert!(validate_group_scope(Some(&g), &strings(&["z"])).is_err());
}

#[test]
fn find_group_by_name() {
    let groups = vec![group("nodes-hsm0", &["a"]), group("nodes-hsm1", &["b"]), group("nodes-hsm1", &["c"])];
    assert_eq!(find_group(&groups, &"nodes-hsm1".to_string()), Some(1));
    assert_eq!(find_group(&groups, &"nodes-hsm".to_string()), None);
}

#[test]
fn missing_configuration_is_not_found() {
    let r = resolve_configuration(vec![], &"nonexistent-cfg".to_string());
    match r {
        Err(e) => {
            assert_eq!(e.name, "nonexistent-cfg");
            let err = RunError::NotFound(e);
            assert_eq!(err.exit_code(), 1);
            assert_eq!(err.kind(), "not found");
        }
        Ok(_) => panic!("no configuration was returned"),
    }
}

#[test]
fn first_configuration_is_resolved() {
    let r = resolve_configuration(
        vec![configuration("compute-v3"), configuration("compute-v3-old")],
        &"compute-v3".to_string(),
    );
    match r {
        Ok(c) => assert_eq!(c.name, "compute-v3"),
        Err(_) => panic!("a configuration was returned"),
    }
}

#[test]
fn decline_writes_nothing() {
    let wp = WritePlan { needs_restart: true, has_desired: true };
    let (stage, actions) = drive(wp, &[Event::Confirmed(false), Event::Succeeded, Event::Succeeded]);
    assert_eq!(stage, Stage::Declined);
    assert_eq!(
        actions,
        vec![
            Action::AskConfirmation,
            Action::Exit { code: 0 },
            Action::Exit { code: 0 },
            Action::Exit { code: 0 },
        ]
    );
}

#[test]
fn image_from_deployment_template() {
    let images: Vec<Image> = vec![];
    let direct = first_image_id(&images, &"compute-v3".to_string());
    assert_eq!(direct, None);
    let templates = vec![
        template("other", Some("compute-v2"), &[Some("s3://boot-images/img-999/boot.json")]),
        template("compute", Some("compute-v3"), &[Some("s3://boot-images/img-333/boot.json")]),
    ];
    let cfg = "compute-v3".to_string();
    let candidates = image_id_candidates(&templates, &cfg, &artifact());
    assert_eq!(candidates, strings(&["img-333"]));
    let first = start_image_lookup(direct, &candidates);
    assert!(matches!(first, ImageLookup::Probe(0)));
    match next_image_lookup(&candidates, 0, true) {
        ImageLookup::Resolved(id) => assert_eq!(id, "img-333"),
        _ => panic!("the probe confirmed img-333"),
    }
    assert_eq!(
        get_image_id_from_bos_sessiontemplate_list(&templates, &cfg, &artifact(), &vec![true]),
        Some("img-333".to_string())
    );
}

#[test]
fn direct_lookup_wins() {
    let images = vec![
        Image { id: "img-440".to_string(), name: "compute-v2".to_string() },
        Image { id: "img-444".to_string(), name: "compute-v3".to_string() },
        Image { id: "img-445".to_string(), name: "compute-v3".to_string() },
    ];
    assert_eq!(first_image_id(&images, &"compute-v9".to_string()), None);
    let direct = first_image_id(&images, &"compute-v3".to_string());
    assert_eq!(direct, Some("img-444".to_string()));
    match start_image_lookup(direct, &strings(&["img-333"])) {
        ImageLookup::Resolved(id) => assert_eq!(id, "img-444"),
        _ => panic!("the direct lookup found an image"),
    }
}

#[test]
fn resolution_is_deterministic() {
    let templates = vec![template(
        "compute",
        Some("compute-v3"),
        &[None, Some("s3://boot-images/img-1/boot.json"), Some("s3://boot-images/img-2/boot.json")],
    )];
    let cfg = "compute-v3".to_string();
    let a = get_image_id_from_bos_sessiontemplate_list(&templates, &cfg, &artifact(), &vec![false, true]);
    let b = get_image_id_from_bos_sessiontemplate_list(&templates, &cfg, &artifact(), &vec![false, true]);
    assert_eq!(a, Some("img-2".to_string()));
    assert_eq!(a, b);
}

#[test]
fn unconfirmed_candidates_resolve_nothing() {
    let templates = vec![
        template("a", Some("compute-v3"), &[Some("s3://boot-images/img-1/boot.json")]),
        template("b", None, &[Some("s3://boot-images/img-5/boot.json")]),
        template("c", Some("compute-v3"), &[Some("bad-path"), Some("s3://boot-images/img-2/boot.json")]),
    ];
    let cfg = "compute-v3".to_string();
    let candidates = image_id_candidates(&templates, &cfg, &artifact());
    assert_eq!(candidates, strings(&["img-1", "img-2"]));
    assert_eq!(get_image_id_from_bos_sessiontemplate_list(&templates, &cfg, &artifact(), &vec![false, false]), None);
    assert_eq!(get_image_id_from_bos_sessiontemplate_list(&templates, &cfg, &artifact(), &vec![]), None);
    assert_eq!(get_image_id_from_bos_sessiontemplate_list(&templates, &cfg, &artifact(), &vec![false, false, true]), None);
    assert!(matches!(next_image_lookup(&candidates, 0, false), ImageLookup::Probe(1)));
    assert!(matches!(next_image_lookup(&candidates, 1, false), ImageLookup::Unresolved));
    assert!(matches!(start_image_lookup(None, &vec![]), ImageLookup::Unresolved));
}

#[test]
fn storage_path_parser() {
    assert_eq!(parse_image_id("s3://boot-images/img-333/rootfs"), Ok("img-333".to_string()));
    assert_eq!(parse_image_id("s3://boot-images/abc/kernel"), Ok("abc".to_string()));
    assert_eq!(parse_image_id("s3://boot-images/img-7/a/b"), Ok("img-7".to_string()));
    assert_eq!(parse_image_id("s3://boot-images/img-7/"), Ok("img-7".to_string()));
    assert_eq!(parse_image_id("s3://other/img-333/rootfs"), Err(StoragePathError::MissingPrefix));
    assert_eq!(parse_image_id("s3://boot-images/img-333"), Err(StoragePathError::MissingSeparator));
    assert_eq!(parse_image_id("s3://boot-images//rootfs"), Err(StoragePathError::EmptyImageId));
    assert_eq!(parse_image_id("s3://boot-images/"), Err(StoragePathError::MissingSeparator));
    assert_eq!(parse_image_id(""), Err(StoragePathError::MissingPrefix));
}

#[test]
fn current_image_from_kernel_path() {
    assert_eq!(current_boot_image(&boot_params("n", "img-111")), Some("img-111".to_string()));
    let mut odd = boot_params("n", "img-111");
    odd.kernel = "/boot/vmlinuz".to_string();
    assert_eq!(current_boot_image(&odd), None);
    let plan = plan_boot(odd, &"img-111".to_string());
    assert!(plan.needs_restart);
}

#[test]
fn first_boot_parameters_record() {
    assert!(first_boot_parameters(vec![]).is_none());
    let first = first_boot_parameters(vec![boot_params("a", "img-1"), boot_params("b", "img-2")]).unwrap();
    assert_eq!(first.hosts, strings(&["a"]));
}

#[test]
fn apply_now_is_negated_restart() {
    for restart in [false, true] {
        let wp = WritePlan { needs_restart: restart, has_desired: true };
        let (_, actions) = drive(wp, &[Event::Confirmed(true), Event::Succeeded, Event::Succeeded]);
        for a in actions {
            if let Action::SetDesiredConfiguration { apply_now } = a {
                assert_eq!(apply_now, !restart);
            }
        }
    }
}

#[test]
fn failed_shutdown_never_starts() {
    let wp = WritePlan { needs_restart: true, has_desired: false };
    let (stage, actions) =
        drive(wp, &[Event::Confirmed(true), Event::Succeeded, Event::UpstreamFailed, Event::Succeeded]);
    assert_eq!(stage, Stage::Failed);
    assert_eq!(
        actions,
        vec![
            Action::AskConfirmation,
            Action::PatchBootParameters,
            Action::PowerOff,
            Action::Exit { code: 1 },
            Action::Exit { code: 1 },
        ]
    );
}

#[test]
fn failed_desired_update_aborts() {
    let wp = WritePlan { needs_restart: false, has_desired: true };
    let (stage, actions) = drive(wp, &[Event::UpstreamFailed]);
    assert_eq!(stage, Stage::Failed);
    assert_eq!(actions[1], Action::Exit { code: 1 });
    let err = RunError::Upstream("unknown node".to_string());
    assert_eq!(err.exit_code(), 1);
    assert_eq!(err.kind(), "upstream");
}

#[test]
fn nothing_requested_ends_at_once() {
    let wp = write_plan(None, &None);
    assert_eq!(wp, WritePlan { needs_restart: false, has_desired: false });
    assert_eq!(begin(wp), (Stage::Done, Action::Exit { code: 0 }));
}

#[test]
fn power_operations_are_shutdown_then_start() {
    assert_eq!(
        power_operation(Action::PowerOff),
        Some(PowerOperation { kind: PowerKind::Shutdown, synchronous: true })
    );
    assert_eq!(
        power_operation(Action::PowerOn),
        Some(PowerOperation { kind: PowerKind::Start, synchronous: false })
    );
    assert_eq!(power_operation(Action::PatchBootParameters), None);
}

#[test]
fn node_set_must_be_named() {
    assert!(manta::membership::nodes_well_formed(&strings(&["x1000c0s0b0n0"])));
    assert!(!manta::membership::nodes_well_formed(&strings(&[])));
    assert!(!manta::membership::nodes_well_formed(&strings(&["a", ""])));
}

#[test]
fn group_unset_only_outside_tenant_mode() {
    assert!(may_unset_group(&strings(&[])));
    assert!(may_unset_group(&strings(&["offline_access", "uma_authorization"])));
    assert!(!may_unset_group(&strings(&["offline_access", "tenant-a"])));
}

#[test]
fn boot_set_path_parser() {
    let a = "boot.json";
    assert_eq!(parse_boot_set_path("s3://boot-images/img-333/boot.json", a), Ok("img-333".to_string()));
    assert_eq!(parse_boot_set_path("s3://boot-images/img-333/kernel", a), Err(StoragePathError::WrongArtifact));
    assert_eq!(parse_boot_set_path("s3://boot-images/img-333/x/boot.json", a), Err(StoragePathError::WrongArtifact));
    assert_eq!(parse_boot_set_path("s3://boot-images/img-333/boot.jsonx", a), Err(StoragePathError::WrongArtifact));
    assert_eq!(parse_boot_set_path("s3://boot-images/img-333", a), Err(StoragePathError::MissingSeparator));
    assert_eq!(parse_boot_set_path("s3://boot-images//boot.json", a), Err(StoragePathError::EmptyImageId));
    assert_eq!(parse_boot_set_path("s3://images/img-333/boot.json", a), Err(StoragePathError::MissingPrefix));
}

#[test]
fn template_path_of_other_artifact_is_no_candidate() {
    let templates = vec![template("compute", Some("compute-v3"), &[Some("s3://boot-images/img-333/kernel")])];
    let cfg = "compute-v3".to_string();
    assert!(image_id_candidates(&templates, &cfg, &artifact()).is_empty());
    assert_eq!(get_image_id_from_bos_sessiontemplate_list(&templates, &cfg, &artifact(), &vec![true]), None);
}

#[test]
fn configurations_filtered_by_group() {
    let configs = || vec![configuration("nodes-hsm1-cfg"), configuration("other"), configuration("x-nodes-hsm2")];
    let names = |v: Vec<Configuration>| v.into_iter().map(|c| c.name).collect::<Vec<_>>();
    assert_eq!(names(configurations_of_groups(configs(), &strings(&[]))), strings(&["nodes-hsm1-cfg", "other", "x-nodes-hsm2"]));
    assert_eq!(names(configurations_of_groups(configs(), &strings(&["nodes-hsm2", "nodes-hsm1"]))), strings(&["nodes-hsm1-cfg", "x-nodes-hsm2"]));
    assert!(configurations_of_groups(configs(), &strings(&["nodes-hsm9"])).is_empty());
}
