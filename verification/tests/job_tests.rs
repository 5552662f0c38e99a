use buildcore::cache::{ImageState, ImagesState};
use buildcore::chunk::BuildProgress;
use buildcore::container::ContainerHandle;
use buildcore::error::BuildError;
use buildcore::job::{
    build_env, format_decimal, format_job_id, latest_tag, BuildJob, BuildSignal, ImageBuild,
    JobAction, Phase,
};
use buildcore::recipe::{plan_commands, step_applies, EnvPair, Recipe, Step};

fn step(cmd: &str, images: Option<&[&str]>) -> Step {
    Step {
        cmd: cmd.to_string(),
        images: images.map(|names| names.iter().map(|n| n.to_string()).collect()),
    }
}

fn sample_recipe() -> Recipe {
    Recipe {
        name: "pkg".to_string(),
        steps: vec![
            step("echo start", None),
            step("echo skip", Some(&["other"])),
            step("echo end", None),
        ],
        env: vec![EnvPair { key: "HOME_SPICE".to_string(), value: "mild".to_string() }],
    }
}

fn ubuntu_state() -> ImageState {
    ImageState {
        image: "ubuntu".to_string(),
        id: "sha256-0123456789abcdef".to_string(),
        tag: "ubuntu:latest".to_string(),
        timestamp: 1700000000,
        os: "ubuntu".to_string(),
        os_version: "22.04".to_string(),
    }
}

#[test]
fn decimal_formatting_is_exact() {
    assert_eq!(format_decimal(0), "0");
    assert_eq!(format_decimal(9), "9");
    assert_eq!(format_decimal(10), "10");
    assert_eq!(format_decimal(907), "907");
    assert_eq!(format_decimal(u64::MAX), "18446744073709551615");
}

#[test]
fn image_tag_appends_latest() {
    assert_eq!(latest_tag("ubuntu"), "ubuntu:latest");
}

#[test]
fn job_id_joins_components_with_dashes() {
    assert_eq!(format_job_id("bld", "pkg", "ubuntu", 12345), "bld-pkg-ubuntu-12345");
}

#[test]
fn job_ids_differ_when_any_component_differs() {
    let a = format_job_id("bld", "pkg", "ubuntu", 100);
    let b = format_job_id("bld", "pkg", "ubuntu", 101);
    let c = format_job_id("bld", "pkg", "debian", 100);
    assert_ne!(a, b);
    assert_ne!(a, c);
}

#[test]
fn step_applicability_follows_image_sets() {
    let everywhere = step("echo hi", None);
    let restricted = step("echo hi", Some(&["other", "alpine"]));
    let matching = step("echo hi", Some(&["alpine", "ubuntu"]));
    let image = "ubuntu".to_string();
    assert!(step_applies(&everywhere, &image));
    assert!(!step_applies(&restricted, &image));
    assert!(step_applies(&matching, &image));
}

#[test]
fn planned_commands_skip_non_applicable_steps_in_order() {
    let recipe = sample_recipe();
    let cmds = plan_commands(&recipe.steps, &"ubuntu".to_string());
    assert_eq!(cmds, vec!["echo start".to_string(), "echo end".to_string()]);
}

#[test]
fn no_applicable_step_plans_zero_commands() {
    let steps = vec![step("echo a", Some(&["other"])), step("echo b", Some(&["alpine"]))];
    let cmds = plan_commands(&steps, &"ubuntu".to_string());
    assert!(cmds.is_empty());
}

#[test]
fn build_env_lists_fixed_variables_then_recipe_entries() {
    let extra = vec![EnvPair { key: "K".to_string(), value: "V".to_string() }];
    let env = build_env(
        &"/tmp/bld-pkg-ubuntu-1".to_string(),
        &"ubuntu".to_string(),
        &"22.04".to_string(),
        &extra,
    );
    assert_eq!(env.len(), 4);
    assert_eq!(env[0].key, "BLD_WORKDIR");
    assert_eq!(env[0].value, "/tmp/bld-pkg-ubuntu-1");
    assert_eq!(env[1].key, "BLD_TARGET_OS");
    assert_eq!(env[1].value, "ubuntu");
    assert_eq!(env[2].key, "BLD_TARGET_OS_VER");
    assert_eq!(env[2].value, "22.04");
    assert_eq!(env[3].key, "K");
    assert_eq!(env[3].value, "V");
}

#[test]
fn verbose_build_echoes_updates_and_quiet_build_does_not() {
    let mut verbose = ImageBuild::new(true);
    match verbose.on_chunk(BuildProgress::Update("pulling layer".to_string())) {
        BuildSignal::Print(line) => assert_eq!(line, "pulling layer"),
        other => panic!("expected an echo, got {:?}", other),
    }
    let mut quiet = ImageBuild::new(false);
    assert!(matches!(
        quiet.on_chunk(BuildProgress::Update("pulling layer".to_string())),
        BuildSignal::Continue
    ));
}

#[test]
fn error_chunk_fails_image_build_and_leaves_cache_alone() {
    let mut cache = ImagesState::new();
    let mut fold = ImageBuild::new(false);
    assert!(matches!(
        fold.on_chunk(BuildProgress::Error("no such base image".to_string())),
        BuildSignal::Fail
    ));
    let result = fold.conclude(
        "ubuntu".to_string(),
        "ubuntu:latest".to_string(),
        1,
        "ubuntu".to_string(),
        "22.04".to_string(),
        &mut cache,
    );
    match result {
        Err(BuildError::Step(msg)) => assert_eq!(msg, "no such base image"),
        other => panic!("expected a step failure, got {:?}", other),
    }
    assert_eq!(cache.len(), 0);
}

#[test]
fn digest_chunk_completes_image_build_and_fills_cache() {
    let mut cache = ImagesState::new();
    let mut fold = ImageBuild::new(false);
    assert!(matches!(
        fold.on_chunk(BuildProgress::Digest("sha256-feedc0de".to_string())),
        BuildSignal::Done
    ));
    let st = fold
        .conclude(
            "ubuntu".to_string(),
            "ubuntu:latest".to_string(),
            42,
            "ubuntu".to_string(),
            "22.04".to_string(),
            &mut cache,
        )
        .expect("a digest concludes successfully");
    assert_eq!(st.image, "ubuntu");
    assert_eq!(st.id, "sha256-feedc0de");
    assert_eq!(st.tag, "ubuntu:latest");
    assert_eq!(st.timestamp, 42);
    assert_eq!(cache.len(), 1);
    assert_eq!(cache.latest(&"ubuntu".to_string()).unwrap().id, "sha256-feedc0de");
}

#[test]
fn stream_end_without_digest_is_a_distinct_failure() {
    let mut cache = ImagesState::new();
    let fold = ImageBuild::new(false);
    let result = fold.conclude(
        "ubuntu".to_string(),
        "ubuntu:latest".to_string(),
        1,
        "ubuntu".to_string(),
        "22.04".to_string(),
        &mut cache,
    );
    assert!(matches!(result, Err(BuildError::MissingDigest)));
    assert_eq!(cache.len(), 0);
}

#[test]
fn job_runs_applicable_steps_in_order_and_succeeds() {
    let recipe = sample_recipe();
    let image = "ubuntu".to_string();
    let mut job = BuildJob::new("bld", &recipe, &image, 12345, false);
    let mut handle = ContainerHandle::new();
    assert_eq!(job.id, "bld-pkg-ubuntu-12345");
    assert_eq!(job.workdir, "/tmp/bld-pkg-ubuntu-12345");
    assert!(matches!(job.first_action(), JobAction::BuildImage));

    let act = job.on_image_event(Ok(ubuntu_state()));
    assert!(matches!(act, JobAction::Spawn));

    let engine_id = "0123456789abcdef0123456789abcdef0123456789abcdef0123456789abcdef";
    let act = job.on_spawn_event(&mut handle, Ok(engine_id.to_string()));
    assert_eq!(handle.id(), "0123456789ab");

    let mut executed: Vec<String> = Vec::new();
    let mut act = act;
    loop {
        match act {
            JobAction::RunStep(i) => {
                executed.push(job.commands[i].clone());
                act = job.on_step_event(Ok(()));
            }
            JobAction::Remove => {
                act = job.on_remove_event(&Ok(()));
            }
            JobAction::Finish => break,
            other => panic!("unexpected action {:?}", other),
        }
    }
    assert_eq!(executed, vec!["echo start".to_string(), "echo end".to_string()]);
    assert!(!executed.contains(&"echo skip".to_string()));
    assert!(matches!(job.phase, Phase::Finished));
    assert!(job.succeeded());
}

#[test]
fn job_with_no_applicable_steps_issues_zero_exec_calls() {
    let recipe = Recipe {
        name: "pkg".to_string(),
        steps: vec![step("echo a", Some(&["other"])), step("echo b", Some(&["alpine"]))],
        env: Vec::new(),
    };
    let image = "ubuntu".to_string();
    let mut job = BuildJob::new("bld", &recipe, &image, 7, false);
    let mut handle = ContainerHandle::new();
    assert!(job.commands.is_empty());
    assert!(matches!(job.on_image_event(Ok(ubuntu_state())), JobAction::Spawn));
    let act = job.on_spawn_event(&mut handle, Ok("c".repeat(64)));
    assert!(matches!(act, JobAction::Remove));
    assert!(matches!(job.on_remove_event(&Ok(())), JobAction::Finish));
    assert!(job.succeeded());
}

#[test]
fn image_failure_aborts_before_anything_is_spawned() {
    let recipe = sample_recipe();
    let image = "ubuntu".to_string();
    let mut job = BuildJob::new("bld", &recipe, &image, 7, false);
    let act = job.on_image_event(Err(BuildError::Step("bad base".to_string())));
    assert!(matches!(act, JobAction::Finish));
    assert!(matches!(job.phase, Phase::Finished));
    assert!(!job.succeeded());
    assert!(matches!(job.failure, Some(BuildError::Step(_))));
}

#[test]
fn spawn_failure_is_an_engine_error_and_still_cleans_up() {
    let recipe = sample_recipe();
    let image = "ubuntu".to_string();
    let mut job = BuildJob::new("bld", &recipe, &image, 7, false);
    let mut handle = ContainerHandle::new();
    job.on_image_event(Ok(ubuntu_state()));
    let act = job.on_spawn_event(&mut handle, Err("daemon unreachable".to_string()));
    assert!(matches!(act, JobAction::Remove));
    assert!(matches!(job.on_remove_event(&Ok(())), JobAction::Finish));
    assert!(!job.succeeded());
    match &job.failure {
        Some(BuildError::Engine(msg)) => assert_eq!(msg, "daemon unreachable"),
        other => panic!("expected an engine failure, got {:?}", other),
    }
}

#[test]
fn step_failure_aborts_remaining_steps_but_cleanup_runs() {
    let recipe = sample_recipe();
    let image = "ubuntu".to_string();
    let mut job = BuildJob::new("bld", &recipe, &image, 7, false);
    let mut handle = ContainerHandle::new();
    job.on_image_event(Ok(ubuntu_state()));
    let act = job.on_spawn_event(&mut handle, Ok("d".repeat(64)));
    assert!(matches!(act, JobAction::RunStep(0)));
    let act = job.on_step_event(Err(BuildError::Step("exit status 1".to_string())));
    assert!(matches!(act, JobAction::Remove));
    assert!(matches!(job.on_remove_event(&Ok(())), JobAction::Finish));
    assert!(!job.succeeded());
}

#[test]
fn removal_failure_never_changes_the_outcome() {
    let recipe = Recipe { name: "pkg".to_string(), steps: Vec::new(), env: Vec::new() };
    let image = "ubuntu".to_string();
    let mut job = BuildJob::new("bld", &recipe, &image, 7, false);
    let mut handle = ContainerHandle::new();
    job.on_image_event(Ok(ubuntu_state()));
    let act = job.on_spawn_event(&mut handle, Ok("e".repeat(64)));
    assert!(matches!(act, JobAction::Remove));
    let act = job.on_remove_event(&Err("failed to stop container - timeout".to_string()));
    assert!(matches!(act, JobAction::Finish));
    assert!(job.succeeded());
}

#[test]
fn cancelled_step_surfaces_as_cancellation_not_step_failure() {
    let recipe = sample_recipe();
    let image = "ubuntu".to_string();
    let mut job = BuildJob::new("bld", &recipe, &image, 7, false);
    let mut handle = ContainerHandle::new();
    job.on_image_event(Ok(ubuntu_state()));
    job.on_spawn_event(&mut handle, Ok("f".repeat(64)));
    let act = job.on_step_event(Err(BuildError::Cancelled));
    assert!(matches!(act, JobAction::Remove));
    job.on_remove_event(&Ok(()));
    assert!(matches!(job.failure, Some(BuildError::Cancelled)));
}
