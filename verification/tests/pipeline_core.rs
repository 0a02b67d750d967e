//! The staleness oracle, path derivation, the stage graph and the driver.

use cargo_vitasdk::{
    aggregate, build_command_args, drive_stream, file_stem, get_arg, is_cached, run_schedule,
    scan_line, sibling_path, with_extension, AggregatedResult, ArtifactPlan, ArtifactPaths,
    BuildMessage, CacheAnswers, LineAction, PipelineOutcome, PipelineState, PlanError, Stage,
    StageFailureKind, StageStatus, StageVerdicts, TARGET_SPEC_NAME,
};

fn ok() -> Result<(), StageFailureKind> {
    Ok(())
}

fn tool_failed(exit: i32) -> Result<(), StageFailureKind> {
    Err(StageFailureKind::ToolFailed { exit: Some(exit) })
}

#[test]
fn staleness_output_absent_is_not_cached() {
    let inputs = vec![Some(100u64)];
    assert_eq!(is_cached(None, &inputs), Ok(false));
}

#[test]
fn staleness_output_newer_is_cached() {
    let inputs = vec![Some(99u64)];
    assert_eq!(is_cached(Some(100), &inputs), Ok(true));
}

#[test]
fn staleness_input_newer_forces_rebuild() {
    let inputs = vec![Some(101u64)];
    assert_eq!(is_cached(Some(100), &inputs), Ok(false));
}

#[test]
fn staleness_equal_timestamps_force_rebuild() {
    let inputs = vec![Some(100u64)];
    assert_eq!(is_cached(Some(100), &inputs), Ok(false));
}

#[test]
fn staleness_missing_input_is_an_error_naming_it() {
    let inputs = vec![Some(1u64), None, None];
    assert_eq!(is_cached(Some(100), &inputs), Err(1));
}

#[test]
fn staleness_no_inputs_is_cached_when_output_exists() {
    let inputs: Vec<Option<u64>> = Vec::new();
    assert_eq!(is_cached(Some(1), &inputs), Ok(true));
}

#[test]
fn with_extension_replaces_and_appends() {
    assert_eq!(with_extension("target/armv7/release/app.elf", "velf"), "target/armv7/release/app.velf");
    assert_eq!(with_extension("app", "vpk"), "app.vpk");
    assert_eq!(with_extension(".hidden", "sfo"), ".hidden.sfo");
    assert_eq!(with_extension("dir.d/app", "sfo"), "dir.d/app.sfo");
    assert_eq!(with_extension("a.b.c", "x"), "a.b.x");
}

#[test]
fn file_stem_cases() {
    assert_eq!(file_stem("release/app.elf"), Some("app".to_owned()));
    assert_eq!(file_stem("app"), Some("app".to_owned()));
    assert_eq!(file_stem(".hidden"), Some(".hidden".to_owned()));
    assert_eq!(file_stem("dir/"), None);
    assert_eq!(file_stem(""), None);
}

#[test]
fn sibling_path_joins_in_same_directory() {
    assert_eq!(sibling_path("ws/Cargo.toml", "spec.json"), "ws/spec.json");
    assert_eq!(sibling_path("Cargo.toml", "spec.json"), "spec.json");
}

#[test]
fn derived_paths_are_deterministic_and_distinct() {
    let a = ArtifactPaths::derive("release/app.elf");
    let b = ArtifactPaths::derive("release/app.elf");
    assert_eq!(a.velf, b.velf);
    assert_eq!(a.sfo, b.sfo);
    assert_eq!(a.eboot_bin, b.eboot_bin);
    assert_eq!(a.vpk, b.vpk);
    assert_eq!(a.velf, "release/app.velf");
    assert_eq!(a.sfo, "release/app.sfo");
    assert_eq!(a.eboot_bin, "release/app.eboot-bin");
    assert_eq!(a.vpk, "release/app.vpk");
    let all = [a.velf, a.sfo, a.eboot_bin, a.vpk];
    for i in 0..all.len() {
        for j in 0..all.len() {
            if i != j {
                assert_ne!(all[i], all[j]);
            }
        }
    }
    // two artifacts with different bases share nothing
    let c = ArtifactPaths::derive("release/other.elf");
    for x in [&c.velf, &c.sfo, &c.eboot_bin, &c.vpk] {
        for y in &all {
            assert_ne!(x, y);
        }
    }
}

#[test]
fn plan_derives_title_and_paths() {
    let plan = ArtifactPlan::new("target/release/game.elf").unwrap();
    assert_eq!(plan.title, "game");
    assert_eq!(plan.paths.vpk, "target/release/game.vpk");
    assert_eq!(plan.stage_output(Stage::Sfo), "target/release/game.sfo");
    assert_eq!(plan.stage_inputs(Stage::Sfo), Vec::<String>::new());
    assert_eq!(plan.stage_inputs(Stage::Velf), vec!["target/release/game.elf".to_owned()]);
    assert_eq!(plan.stage_inputs(Stage::Fself), vec!["target/release/game.velf".to_owned()]);
    assert_eq!(
        plan.stage_inputs(Stage::Vpk),
        vec!["target/release/game.sfo".to_owned(), "target/release/game.eboot-bin".to_owned()]
    );
    assert_eq!(ArtifactPlan::stage_tool(Stage::Velf), "vita-elf-create");
}

#[test]
fn plan_without_file_stem_is_refused() {
    assert_eq!(ArtifactPlan::new("target/release/").unwrap_err(), PlanError::NoFileStem);
}

#[test]
fn all_cached_runs_no_tool_and_succeeds() {
    let cached = CacheAnswers { sfo: true, velf: true, fself: true, vpk: true };
    let verdicts = StageVerdicts { sfo: ok(), velf: ok(), fself: ok(), vpk: ok() };
    let report = run_schedule(&cached, &verdicts);
    assert_eq!(report.invoked, Vec::<Stage>::new());
    assert_eq!(report.outcome, PipelineOutcome::Success);
}

#[test]
fn nothing_cached_runs_all_four_in_order() {
    let cached = CacheAnswers { sfo: false, velf: false, fself: false, vpk: false };
    let verdicts = StageVerdicts { sfo: ok(), velf: ok(), fself: ok(), vpk: ok() };
    let report = run_schedule(&cached, &verdicts);
    assert_eq!(report.invoked, vec![Stage::Sfo, Stage::Velf, Stage::Fself, Stage::Vpk]);
    assert_eq!(report.outcome, PipelineOutcome::Success);
}

#[test]
fn failure_forecloses_later_stages() {
    let cached = CacheAnswers { sfo: false, velf: false, fself: false, vpk: false };
    let verdicts =
        StageVerdicts { sfo: ok(), velf: tool_failed(2), fself: ok(), vpk: ok() };
    let report = run_schedule(&cached, &verdicts);
    assert_eq!(report.invoked, vec![Stage::Sfo, Stage::Velf]);
    assert_eq!(
        report.outcome,
        PipelineOutcome::Failed {
            stage: Stage::Velf,
            kind: StageFailureKind::ToolFailed { exit: Some(2) }
        }
    );
}

#[test]
fn join_waits_for_both_branches() {
    let mut st = PipelineState::new();
    assert!(!st.is_ready(Stage::Vpk));
    assert!(st.is_ready(Stage::Sfo));
    assert!(st.is_ready(Stage::Velf));
    assert!(!st.is_ready(Stage::Fself));
    st.skip(Stage::Sfo);
    assert!(!st.is_ready(Stage::Vpk));
    st.start(Stage::Velf);
    st.finish(Stage::Velf, ok());
    assert!(st.is_ready(Stage::Fself));
    assert!(!st.is_ready(Stage::Vpk));
    st.start(Stage::Fself);
    st.finish(Stage::Fself, ok());
    assert!(st.is_ready(Stage::Vpk));
    st.start(Stage::Vpk);
    st.finish(Stage::Vpk, ok());
    assert_eq!(st.outcome(), Some(PipelineOutcome::Success));
    assert_eq!(st.get_stage(Stage::Sfo), StageStatus::Done { ran: false });
    assert_eq!(st.get_stage(Stage::Vpk), StageStatus::Done { ran: true });
}

#[test]
fn failed_branch_reports_first_failure() {
    let mut st = PipelineState::new();
    st.start(Stage::Sfo);
    st.finish(Stage::Sfo, tool_failed(1));
    assert!(!st.is_ready(Stage::Velf));
    assert_eq!(
        st.outcome(),
        Some(PipelineOutcome::Failed {
            stage: Stage::Sfo,
            kind: StageFailureKind::ToolFailed { exit: Some(1) }
        })
    );
}

#[test]
fn scan_line_reacts_to_real_messages() {
    let artifact = r#"{"reason":"compiler-artifact","package_id":"path+file:///ws/game#0.1.0","manifest_path":"/ws/Cargo.toml","target":{"kind":["bin"],"crate_types":["bin"],"name":"game","src_path":"/ws/src/main.rs","edition":"2021","doc":true,"doctest":false,"test":true},"profile":{"opt_level":"0","debuginfo":2,"debug_assertions":true,"overflow_checks":true,"test":false},"features":[],"filenames":["/ws/target/debug/game"],"executable":"/ws/target/debug/game.elf","fresh":false}"#;
    assert_eq!(
        scan_line(artifact),
        LineAction::Spawn("/ws/target/debug/game.elf".to_owned())
    );
    let no_exec = r#"{"reason":"build-finished","success":true}"#;
    assert_eq!(scan_line(no_exec), LineAction::Ignore);
    assert_eq!(scan_line("not json at all"), LineAction::ProtocolFailure);
    assert_eq!(scan_line(""), LineAction::ProtocolFailure);
}

#[test]
fn stream_spawns_every_artifact_before_any_completion() {
    // a synthetic stream well past a pipe buffer's worth of messages: the
    // driver hands out every spawn without waiting on any pipeline
    let n = 20_000;
    let mut msgs = Vec::new();
    for i in 0..n {
        msgs.push(Some(BuildMessage::CompilerArtifact {
            executable: Some(format!("/t/app{i}.elf")),
        }));
        msgs.push(Some(BuildMessage::Other));
    }
    let spawned = drive_stream(msgs).unwrap();
    assert_eq!(spawned.len(), n);
    assert_eq!(spawned[0], "/t/app0.elf");
    assert_eq!(spawned[n - 1], format!("/t/app{}.elf", n - 1));
}

#[test]
fn malformed_line_fails_the_run_wherever_it_sits() {
    for pos in [0usize, 3, 7] {
        let mut msgs: Vec<Option<BuildMessage>> = Vec::new();
        for i in 0..8 {
            if i == pos {
                msgs.push(None);
            } else {
                msgs.push(Some(BuildMessage::Other));
            }
        }
        assert_eq!(drive_stream(msgs), Err(pos));
    }
}

#[test]
fn build_command_args_prefix_then_user_args() {
    let user = vec!["--release".to_owned(), "-p".to_owned(), "game".to_owned()];
    let args = build_command_args(&user);
    assert_eq!(
        args,
        vec![
            "build".to_owned(),
            "--message-format=json-render-diagnostics".to_owned(),
            "-Zbuild-std=panic_abort,std".to_owned(),
            "--target".to_owned(),
            TARGET_SPEC_NAME.to_owned(),
            "--release".to_owned(),
            "-p".to_owned(),
            "game".to_owned(),
        ]
    );
}

#[test]
fn get_arg_finds_both_spellings() {
    let args: Vec<String> =
        ["--quiet", "--manifest-path", "a/Cargo.toml", "x"].iter().map(|s| s.to_string()).collect();
    assert_eq!(get_arg(&args, "--manifest-path"), Some("a/Cargo.toml".to_owned()));
    let args2: Vec<String> = ["--manifest-path=b/Cargo.toml", "x"].iter().map(|s| s.to_string()).collect();
    assert_eq!(get_arg(&args2, "--manifest-path"), Some("b/Cargo.toml".to_owned()));
    let args3: Vec<String> = ["--quiet"].iter().map(|s| s.to_string()).collect();
    assert_eq!(get_arg(&args3, "--manifest-path"), None);
    // a flag in the last position has no following value and is not matched
    let args4: Vec<String> = ["--manifest-path"].iter().map(|s| s.to_string()).collect();
    assert_eq!(get_arg(&args4, "--manifest-path"), None);
}

#[test]
fn aggregate_build_failure_takes_precedence() {
    let outcomes = vec![PipelineOutcome::Failed {
        stage: Stage::Vpk,
        kind: StageFailureKind::ToolFailed { exit: Some(3) },
    }];
    assert_eq!(
        aggregate(Some(101), &outcomes),
        AggregatedResult::BuildFailed { exit: Some(101) }
    );
    assert_eq!(aggregate(None, &Vec::new()), AggregatedResult::BuildFailed { exit: None });
}

#[test]
fn aggregate_reports_first_failed_pipeline() {
    let outcomes = vec![
        PipelineOutcome::Success,
        PipelineOutcome::Failed {
            stage: Stage::Fself,
            kind: StageFailureKind::MissingInput { input: 0 },
        },
        PipelineOutcome::Failed {
            stage: Stage::Sfo,
            kind: StageFailureKind::ToolFailed { exit: Some(9) },
        },
    ];
    assert_eq!(
        aggregate(Some(0), &outcomes),
        AggregatedResult::PipelineFailed {
            index: 1,
            stage: Stage::Fself,
            kind: StageFailureKind::MissingInput { input: 0 }
        }
    );
}

#[test]
fn aggregate_success_needs_every_pipeline() {
    let outcomes = vec![PipelineOutcome::Success, PipelineOutcome::Success];
    assert_eq!(aggregate(Some(0), &outcomes), AggregatedResult::Success);
    assert_eq!(aggregate(Some(0), &Vec::new()), AggregatedResult::Success);
}
