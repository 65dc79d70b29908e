use fontpack::charset::CharacterSet;
use fontpack::pipeline::{
    Action, Compilation, Config, Event, FontError, FontRequest, ServiceOutcome, Stage,
};

fn config() -> Config {
    Config {
        root: "/proj".to_string(),
        tool_dir: "/tools".to_string(),
    }
}

fn request(selection: Vec<CharacterSet>) -> FontRequest {
    FontRequest {
        source_path: "fonts/x.ttf".to_string(),
        artifact_name: "Body12".to_string(),
        pixel_size: 12,
        selection,
    }
}

#[test]
fn scenario_explicit_selection_drives_both_selectors() {
    let (c, a) = Compilation::new(&config(), &request(vec![CharacterSet::Numbers]));
    assert_eq!(a, Action::CheckPath("/proj/fonts/x.ttf".to_string()));

    let (c, a) = c.step(Event::PathChecked(true));
    match a {
        Action::RunRasterizer(prog, args) => {
            assert_eq!(prog, "otf2bdf");
            assert_eq!(
                args,
                vec![
                    "-p",
                    "12",
                    "-l",
                    "48 49 50 51 52 53 54 55 56 57",
                    "/proj/fonts/x.ttf",
                ]
            );
        }
        other => panic!("expected a rasterizer run, got {:?}", other),
    }

    // A stub rasterizer that echoes its -l argument back as output.
    let bitmap = b"48 49 50 51 52 53 54 55 56 57".to_vec();
    let (c, a) = c.step(Event::RasterizerDone(ServiceOutcome::Exited(
        0,
        bitmap.clone(),
        String::new(),
    )));
    assert_eq!(
        a,
        Action::WriteIntermediate("/proj/fonts/x.bdf".to_string(), bitmap)
    );

    let (c, a) = c.step(Event::WriteDone(true));
    match a {
        Action::RunPacker(exe, args) => {
            assert_eq!(exe, "/tools/bdfconv");
            assert_eq!(
                args,
                vec![
                    "-f",
                    "1",
                    "-m",
                    "48,49,50,51,52,53,54,55,56,57",
                    "-binary",
                    "/proj/fonts/x.bdf",
                ]
            );
        }
        other => panic!("expected a packer run, got {:?}", other),
    }

    // A stub packer that echoes its -m argument back as output.
    let packed = b"48,49,50,51,52,53,54,55,56,57".to_vec();
    let (c, a) = c.step(Event::PackerDone(ServiceOutcome::Exited(
        0,
        packed.clone(),
        String::new(),
    )));
    assert_eq!(
        a,
        Action::RemoveIntermediate("/proj/fonts/x.bdf".to_string())
    );

    let (c, a) = c.step(Event::CleanupDone(true));
    assert!(c.is_finished());
    assert_eq!(a, Action::Emit("Body12".to_string(), packed));
}

#[test]
fn scenario_legacy_form_uses_default_ranges() {
    let (c, _) = Compilation::new(&config(), &request(vec![]));
    let (c, a) = c.step(Event::PathChecked(true));
    match a {
        Action::RunRasterizer(_, args) => {
            assert_eq!(args[2], "-l");
            assert_eq!(args[3], "32-255");
        }
        other => panic!("expected a rasterizer run, got {:?}", other),
    }
    let (c, _) = c.step(Event::RasterizerDone(ServiceOutcome::Exited(
        0,
        b"bitmap".to_vec(),
        String::new(),
    )));
    let (_, a) = c.step(Event::WriteDone(true));
    match a {
        Action::RunPacker(_, args) => {
            assert_eq!(args[2], "-m");
            assert_eq!(args[3], "32-127");
        }
        other => panic!("expected a packer run, got {:?}", other),
    }
}

#[test]
fn scenario_missing_font_spawns_no_service() {
    let mut spawned = 0;
    let (c, a) = Compilation::new(&config(), &request(vec![CharacterSet::Numbers]));
    if matches!(a, Action::RunRasterizer(..) | Action::RunPacker(..)) {
        spawned += 1;
    }
    let (c, a) = c.step(Event::PathChecked(false));
    if matches!(a, Action::RunRasterizer(..) | Action::RunPacker(..)) {
        spawned += 1;
    }
    assert!(c.is_finished());
    assert_eq!(
        a,
        Action::Report(FontError::FontNotFound("/proj/fonts/x.ttf".to_string()))
    );
    assert_eq!(spawned, 0);
}

#[test]
fn scenario_rasterizer_failure_surfaces_stderr_and_skips_intermediate() {
    let (c, _) = Compilation::new(&config(), &request(vec![CharacterSet::Numbers]));
    let (c, a) = c.step(Event::PathChecked(true));
    assert!(matches!(a, Action::RunRasterizer(..)));
    let (c, a) = c.step(Event::RasterizerDone(ServiceOutcome::Exited(
        1,
        Vec::new(),
        "bad glyph table".to_string(),
    )));
    assert!(c.is_finished());
    // The intermediate file was never created: the terminal action is the
    // report itself, not a write or a removal.
    assert_eq!(
        a,
        Action::Report(FontError::ConversionServiceFailed(
            1,
            "bad glyph table".to_string()
        ))
    );
}

#[test]
fn compile_is_deterministic_across_runs() {
    let run = || {
        let (c, _) = Compilation::new(&config(), &request(vec![CharacterSet::Numbers]));
        let (c, _) = c.step(Event::PathChecked(true));
        let (c, _) = c.step(Event::RasterizerDone(ServiceOutcome::Exited(
            0,
            b"bitmap-bytes".to_vec(),
            String::new(),
        )));
        let (c, _) = c.step(Event::WriteDone(true));
        let (c, _) = c.step(Event::PackerDone(ServiceOutcome::Exited(
            0,
            b"packed-bytes".to_vec(),
            String::new(),
        )));
        let (_, a) = c.step(Event::CleanupDone(true));
        match a {
            Action::Emit(name, bytes) => (name, bytes),
            other => panic!("expected emission, got {:?}", other),
        }
    };
    let first = run();
    let second = run();
    assert_eq!(first, second);
    assert_eq!(first.1, b"packed-bytes".to_vec());
}

#[test]
fn empty_resolved_selection_is_rejected_before_any_spawn() {
    let (c, _) = Compilation::new(&config(), &request(vec![CharacterSet::Literal(String::new())]));
    let (c, a) = c.step(Event::PathChecked(true));
    assert!(c.is_finished());
    assert_eq!(a, Action::Report(FontError::EmptySelection));
}

#[test]
fn rasterizer_spawn_failure_names_stage_and_executable() {
    let (c, _) = Compilation::new(&config(), &request(vec![CharacterSet::Numbers]));
    let (c, a) = c.step(Event::PathChecked(true));
    assert!(matches!(a, Action::RunRasterizer(..)));
    let (c, a) = c.step(Event::RasterizerDone(ServiceOutcome::SpawnFailed));
    assert!(c.is_finished());
    assert_eq!(
        a,
        Action::Report(FontError::ConversionServiceUnavailable(
            Stage::Rasterizer,
            "otf2bdf".to_string()
        ))
    );
}

#[test]
fn packer_spawn_failure_still_cleans_up_then_reports() {
    let (c, _) = Compilation::new(&config(), &request(vec![CharacterSet::Numbers]));
    let (c, _) = c.step(Event::PathChecked(true));
    let (c, _) = c.step(Event::RasterizerDone(ServiceOutcome::Exited(
        0,
        b"bitmap".to_vec(),
        String::new(),
    )));
    let (c, _) = c.step(Event::WriteDone(true));
    let (c, a) = c.step(Event::PackerDone(ServiceOutcome::SpawnFailed));
    assert_eq!(
        a,
        Action::RemoveIntermediate("/proj/fonts/x.bdf".to_string())
    );
    let (c, a) = c.step(Event::CleanupDone(true));
    assert!(c.is_finished());
    assert_eq!(
        a,
        Action::Report(FontError::ConversionServiceUnavailable(
            Stage::Packer,
            "/tools/bdfconv".to_string()
        ))
    );
}

#[test]
fn write_failure_cleans_up_then_reports() {
    let (c, _) = Compilation::new(&config(), &request(vec![CharacterSet::Numbers]));
    let (c, _) = c.step(Event::PathChecked(true));
    let (c, _) = c.step(Event::RasterizerDone(ServiceOutcome::Exited(
        0,
        b"bitmap".to_vec(),
        String::new(),
    )));
    let (c, a) = c.step(Event::WriteDone(false));
    assert_eq!(
        a,
        Action::RemoveIntermediate("/proj/fonts/x.bdf".to_string())
    );
    let (c, a) = c.step(Event::CleanupDone(true));
    assert!(c.is_finished());
    assert_eq!(
        a,
        Action::Report(FontError::IntermediateWriteFailed(
            "/proj/fonts/x.bdf".to_string()
        ))
    );
}

#[test]
fn cleanup_failure_after_success_is_reported() {
    let (c, _) = Compilation::new(&config(), &request(vec![CharacterSet::Numbers]));
    let (c, _) = c.step(Event::PathChecked(true));
    let (c, _) = c.step(Event::RasterizerDone(ServiceOutcome::Exited(
        0,
        b"bitmap".to_vec(),
        String::new(),
    )));
    let (c, _) = c.step(Event::WriteDone(true));
    let (c, _) = c.step(Event::PackerDone(ServiceOutcome::Exited(
        0,
        b"packed".to_vec(),
        String::new(),
    )));
    let (c, a) = c.step(Event::CleanupDone(false));
    assert!(c.is_finished());
    assert_eq!(
        a,
        Action::Report(FontError::IntermediateCleanupFailed(
            "/proj/fonts/x.bdf".to_string()
        ))
    );
}

#[test]
fn packer_failure_takes_precedence_over_cleanup_failure() {
    let (c, _) = Compilation::new(&config(), &request(vec![CharacterSet::Numbers]));
    let (c, _) = c.step(Event::PathChecked(true));
    let (c, _) = c.step(Event::RasterizerDone(ServiceOutcome::Exited(
        0,
        b"bitmap".to_vec(),
        String::new(),
    )));
    let (c, _) = c.step(Event::WriteDone(true));
    let (c, _) = c.step(Event::PackerDone(ServiceOutcome::Exited(
        3,
        Vec::new(),
        "no glyphs".to_string(),
    )));
    let (c, a) = c.step(Event::CleanupDone(false));
    assert!(c.is_finished());
    assert_eq!(
        a,
        Action::Report(FontError::ConversionServiceFailed(
            3,
            "no glyphs".to_string()
        ))
    );
}

#[test]
fn intermediate_path_replaces_only_the_final_extension() {
    let cfg = config();
    let req = FontRequest {
        source_path: "fonts/archive.tar.gz".to_string(),
        artifact_name: "A".to_string(),
        pixel_size: 9,
        selection: vec![CharacterSet::Numbers],
    };
    let (c, _) = Compilation::new(&cfg, &req);
    let (c, _) = c.step(Event::PathChecked(true));
    let (_, a) = c.step(Event::RasterizerDone(ServiceOutcome::Exited(
        0,
        b"bitmap".to_vec(),
        String::new(),
    )));
    assert_eq!(
        a,
        Action::WriteIntermediate("/proj/fonts/archive.tar.bdf".to_string(), b"bitmap".to_vec())
    );
}

#[test]
fn intermediate_path_appends_when_there_is_no_extension() {
    let cfg = config();
    let req = FontRequest {
        source_path: "fonts/noext".to_string(),
        artifact_name: "A".to_string(),
        pixel_size: 9,
        selection: vec![CharacterSet::Numbers],
    };
    let (c, _) = Compilation::new(&cfg, &req);
    let (c, _) = c.step(Event::PathChecked(true));
    let (_, a) = c.step(Event::RasterizerDone(ServiceOutcome::Exited(
        0,
        b"bitmap".to_vec(),
        String::new(),
    )));
    assert_eq!(
        a,
        Action::WriteIntermediate("/proj/fonts/noext.bdf".to_string(), b"bitmap".to_vec())
    );
}

#[test]
fn pixel_size_is_rendered_in_decimal() {
    let cfg = config();
    let req = FontRequest {
        source_path: "f.otf".to_string(),
        artifact_name: "A".to_string(),
        pixel_size: 4294967295,
        selection: vec![CharacterSet::Literal("a".to_string())],
    };
    let (c, _) = Compilation::new(&cfg, &req);
    let (_, a) = c.step(Event::PathChecked(true));
    match a {
        Action::RunRasterizer(_, args) => {
            assert_eq!(args[0], "-p");
            assert_eq!(args[1], "4294967295");
            assert_eq!(args[3], "97");
        }
        other => panic!("expected a rasterizer run, got {:?}", other),
    }
}
