use astroviewer::logbook::LogLevel;
use astroviewer::solve::{
    default_true, failure_text, limit_from_slider, Extraction, FrameJob, Pipeline, SavedSolver,
    SolveInputs, SolveOutput, SolveStatus,
};
use astroviewer::solver_db::{model_failed, model_note, DbSize, ModelFacts, SolverDb};

type Pipe = Pipeline<f32, u32, f32, u8>;

fn pipe() -> Pipe {
    Pipeline::new(true, false, 20.0, 0.0)
}

fn output(solve: Option<Result<f32, SolveStatus>>) -> SolveOutput<f32, u32, f32, u8> {
    SolveOutput { centroids: vec![7, 8], extract_ms: 12.0, solve, focus: Some(3) }
}

#[test]
fn frames_are_skipped_while_a_job_runs() {
    let mut p = pipe();
    assert_eq!(p.plan(false), FrameJob::Extract);
    assert_eq!(
        p.plan(true),
        FrameJob::Solve(SolveInputs { from_last: false, tolerance_deg: 10 })
    );
    p.dispatched(false);
    assert_eq!(p.plan(false), FrameJob::Extract);
    p.dispatched(true);
    assert_eq!(p.plan(true), FrameJob::Skip);
    assert_eq!(p.status(true), Some("Solving..."));
    p.landed(output(Some(Ok(11.5))), |s| *s);
    assert_eq!(p.fov, 11.5);
    assert_eq!(p.centroids, [7, 8]);
    assert_eq!(p.focus, Some(3));
    assert_eq!(
        p.plan(true),
        FrameJob::Solve(SolveInputs { from_last: true, tolerance_deg: 2 })
    );
    assert_eq!(p.status(true), Some("Locked"));
    assert_eq!(p.bar_status(), Some("Solved"));
    assert_eq!(p.count_text(), Some("2 stars".to_string()));
}

#[test]
fn a_failed_solve_keeps_the_field_of_view() {
    let mut p = pipe();
    p.dispatched(true);
    p.landed(output(Some(Err(SolveStatus::TooFew))), |s| *s);
    assert_eq!(p.fov, 20.0);
    assert_eq!(p.last, Some(Err(SolveStatus::TooFew)));
    assert_eq!(p.status(true), Some("Searching..."));
    assert_eq!(p.bar_status(), None);
    assert_eq!(failure_text(SolveStatus::NoMatch), "No match");
    assert_eq!(failure_text(SolveStatus::Timeout), "Timed out");
    assert_eq!(failure_text(SolveStatus::TooFew), "Too few stars");
    assert_eq!(failure_text(SolveStatus::InvalidConfig), "Invalid solver config");
}

#[test]
fn results_that_land_after_the_switch_are_dropped() {
    let mut p = pipe();
    p.landed(output(Some(Ok(11.5))), |s| *s);
    p.dispatched(true);
    p.set_enabled(false);
    assert_eq!((p.last, p.centroids.len(), p.focus), (None, 0, None));
    assert!(p.busy);
    p.landed(output(Some(Ok(33.0))), |s| *s);
    assert!(!p.busy);
    assert_eq!((p.last, p.centroids.len(), p.focus), (None, 0, None));
    assert_eq!(p.fov, 11.5);
    assert_eq!(p.plan(true), FrameJob::Skip);
    assert_eq!(p.status(true), Some("Off"));
    assert_eq!(p.status(false), None);
    assert_eq!(p.count_text(), None);
}

#[test]
fn unloading_the_database_drops_the_lock() {
    let mut p = pipe();
    p.landed(output(Some(Ok(11.5))), |s| *s);
    p.unload();
    assert!(!p.is_locked());
    assert_eq!(p.centroids.len(), 2);
}

#[test]
fn the_focus_readout_explains_its_silence() {
    let mut p = pipe();
    assert_eq!(p.focus_hint(false, false, None), None);
    assert_eq!(p.focus_hint(true, false, None), Some("ROI only: drag a region on the image"));
    assert_eq!(
        p.focus_hint(false, false, Some(false)),
        Some("No measurable stars: too faint, saturated, or elongated")
    );
    assert_eq!(p.focus_hint(true, true, Some(true)), None);
    p.set_enabled(false);
    assert_eq!(
        p.focus_hint(true, false, None),
        Some("Solve is off: enable it in the Plate Solve tab")
    );
}

fn extraction() -> Extraction<f32> {
    Extraction {
        sigma_threshold: 5.0,
        min_pixels: 3,
        max_pixels: 900,
        max_centroids: None,
        local_bg_block_size: None,
        max_elongation: Some(2.0),
        matched_filter_sigma: Some(1.5),
    }
}

#[test]
fn the_fast_extractor_shares_the_settings() {
    let mut e = extraction();
    let f = e.fast();
    assert_eq!((f.bg_grid, f.min_pixels, f.max_pixels), (64, 3, 900));
    assert_eq!(e.stars_text(), "all");
    assert_eq!(e.background_text(), "global");
    e.local_bg_block_size = Some(32);
    e.max_centroids = Some(80);
    assert_eq!(e.fast().bg_grid, 32);
    assert_eq!(e.stars_text(), "80");
    assert_eq!(e.background_text(), "32 px");
    e.set_matched_filter(None, true);
    assert_eq!(e.matched_filter_sigma, Some(1.5));
    e.set_matched_filter(None, false);
    assert_eq!(e.matched_filter_sigma, None);
    assert_eq!(limit_from_slider(0, 1), None);
    assert_eq!(limit_from_slider(4, 5), Some(5));
}

#[test]
fn solver_settings_persist() {
    assert!(default_true());
    let mut p = pipe();
    p.tracking = true;
    p.fov = 33.0;
    let saved = SavedSolver::new(Some("/db.bin"), None, extraction(), &p);
    assert_eq!(saved.solver_db_path, "/db.bin");
    assert_eq!(saved.camera_model_path, "");
    let mut q: Pipe = Pipeline::new(false, false, 10.0, 0.0);
    let mut e = Extraction { min_pixels: 99, ..extraction() };
    let usable = |f: f32| (1.0..=60.0).contains(&f);
    saved.restore(&mut e, &mut q, usable);
    assert_eq!(e, extraction());
    assert_eq!((q.fov, q.tracking, q.enabled), (33.0, true, true));
    p.fov = 200.0;
    let wide = SavedSolver::new(None, None, extraction(), &p);
    wide.restore(&mut e, &mut q, usable);
    assert_eq!(q.fov, 33.0);
}

#[test]
fn a_cached_database_is_preferred_to_building_one() {
    let mut db = SolverDb::new();
    assert_eq!(db.remembered("", true), None);
    assert_eq!(db.remembered("/x.bin", false), None);
    assert_eq!(db.remembered("/x.bin", true), Some("/x.bin"));
    assert_eq!(
        db.provision("/cache.bin", true, Some("/cat.bin")),
        Some("/cache.bin".to_string())
    );
    assert!(!db.prompt);
    assert_eq!(db.provision("/cache.bin", false, Some("/cat.bin")), None);
    assert!(db.prompt);
    assert!(db.can_build());
    let note = db.loaded_at("/cache.bin", DbSize { patterns: 100, stars: 7 });
    assert_eq!(note.text, "Database loaded: 100 patterns, 7 stars");
    assert!(!db.can_build());
    assert_eq!(db.provision("/cache.bin", true, None), None);
    db.unload();
    assert!(!db.loaded);
    assert_eq!(db.path_to_save(), Some("/cache.bin"));
    assert_eq!(db.remembered(db.path_to_save().unwrap(), true), Some("/cache.bin"));
    assert_eq!(SolverDb::loading_note("/a").text, "Auto-loading database: /a");
    assert_eq!(SolverDb::load_failed("no").text, "Auto-load failed: no");
}

#[test]
fn a_database_is_built_once() {
    let mut db = SolverDb::new();
    assert_eq!(db.start_build(), None);
    db.provision("/cache.bin", false, Some("/cat.bin"));
    let (catalog, note) = db.start_build().unwrap();
    assert_eq!(catalog, "/cat.bin");
    assert_eq!(note.text, "Building star database from catalog\u{2026}");
    assert!(db.building && !db.prompt);
    assert_eq!(db.start_build(), None);
    let note = db.built(Ok(DbSize { patterns: 2, stars: 3 }), 125, "/cache.bin");
    assert_eq!(note.text, "Star database built in 12.5s: 2 patterns, 3 stars");
    assert!(db.loaded);
    assert_eq!(db.path, Some("/cache.bin".to_string()));
    db.start_build().unwrap();
    let note = db.built(Err("disk"), 1, "/cache.bin");
    assert_eq!((note.level, note.text.as_str()), (LogLevel::Error, "Database build failed: disk"));
    db.start_build().unwrap();
    assert_eq!(db.build_lost().text, "Database build thread stopped unexpectedly");
    assert!(!db.building);
    db.prompt = true;
    db.put_off();
    assert!(!db.prompt);
}

#[test]
fn a_picked_database_is_described() {
    let mut db = SolverDb::new();
    assert_eq!(SolverDb::picked_note("/tmp/a.bin").text, "Loading database: /tmp/a.bin...");
    let note = db.picked("/tmp/a.bin", DbSize { patterns: 1200, stars: 340 }, 50, 505);
    assert!(db.loaded);
    assert_eq!(db.path.as_deref(), Some("/tmp/a.bin"));
    assert_eq!(
        note.text,
        "Database: 1200 patterns, 340 stars, 5.0\u{b0}\u{2013}50.5\u{b0}"
    );
    let failed = SolverDb::pick_failed("bad magic");
    assert_eq!(failed.level, LogLevel::Error);
    assert_eq!(failed.text, "Load failed: bad magic");
}

#[test]
fn camera_models_are_described() {
    let m = ModelFacts { focal: 25004, width: 1920, height: 1080, fov: 4205 };
    assert_eq!(
        model_note(m, true).text,
        "Camera model loaded: f=2500.4px, 1920x1080, FOV 42.05\u{b0}"
    );
    assert_eq!(
        model_note(m, false).text,
        "Camera model: f=2500.4px, 1920x1080, FOV 42.05\u{b0}"
    );
    assert_eq!(model_failed("no file").text, "Camera model load failed: no file");
}
