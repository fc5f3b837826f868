//! The star database of the plate solver: loading it, and building it once
//! from the bundled catalog.

use crate::logbook::LogLevel;
use crate::session;
use crate::session::Note;
use crate::settings;
use crate::solve;
use crate::text;
use vstd::prelude::*;
use vstd::string::*;

verus! {

/// File name of the catalog bundled with packaged builds; the default database
/// is generated from it on first run.
pub const GAIA_CATALOG_FILENAME: &'static str = "gaia_merged.bin";

/// File name of the generated database. It encodes the generation parameters,
/// so that changing them produces a new file.
pub const GENERATED_SOLVER_FILENAME: &'static str = "solver_fov5-50_mag85.bin";

/// Which database there is, and what is being done to get one.
#[derive(PartialEq, Eq, Debug)]
pub struct SolverDb {
    /// A database is loaded.
    pub loaded: bool,
    /// Where the last database came from. It stays when that one is unloaded,
    /// so that the next run loads it again.
    pub path: Option<String>,
    /// The catalog that a database can be built from.
    pub catalog: Option<String>,
    /// A database is being built.
    pub building: bool,
    /// Offer to build one.
    pub prompt: bool,
}

/// The content of a [`SolverDb`].
#[verifier::ext_equal]
pub struct DbState {
    pub loaded: bool,
    pub path: Option<Seq<char>>,
    pub catalog: Option<Seq<char>>,
    pub building: bool,
    pub prompt: bool,
}

impl View for SolverDb {
    type V = DbState;

    open spec fn view(&self) -> DbState {
        DbState {
            loaded: self.loaded,
            path: settings::opt_text(self.path),
            catalog: settings::opt_text(self.catalog),
            building: self.building,
            prompt: self.prompt,
        }
    }
}

/// How big a database is.
#[derive(Clone, Copy, PartialEq, Eq, Structural, Debug)]
pub struct DbSize {
    pub patterns: u64,
    pub stars: u64,
}

/// The size as text.
pub open spec fn size_text(s: DbSize) -> Seq<char> {
    text::decimal(s.patterns as int) + " patterns, "@ + text::decimal(s.stars as int) + " stars"@
}

fn size_string(s: DbSize) -> (r: String)
    ensures
        r@ == size_text(s),
{
    let p: String = text::int_text(s.patterns as i128);
    let n: String = text::int_text(s.stars as i128);
    text::join4(p.as_str(), " patterns, ", n.as_str(), " stars")
}

/// How an optional path reads.
pub open spec fn path_view(p: Option<&str>) -> Option<Seq<char>> {
    match p {
        Some(s) => Some(s@),
        None => None,
    }
}

impl DbState {
    /// A loaded database came from somewhere. A prompt needs a catalog to build
    /// from; while a database is being built none is offered.
    pub open spec fn wf(self) -> bool {
        &&& self.loaded ==> self.path is Some
        &&& self.prompt ==> self.catalog is Some && !self.building
        &&& self.building ==> self.catalog is Some
    }

    /// The path that is saved for the next run; empty without one.
    pub open spec fn saved_path(self) -> Seq<char> {
        match self.path {
            Some(p) => p,
            None => Seq::empty(),
        }
    }

    /// The database unloaded, its path kept.
    pub open spec fn unloaded(self) -> DbState {
        DbState { loaded: false, ..self }
    }
}

/// The database to load at startup, from the path that was saved and whether
/// there is such a file.
pub open spec fn path_to_load(saved: Seq<char>, exists: bool) -> Option<Seq<char>> {
    if saved.len() > 0 && exists {
        Some(saved)
    } else {
        None
    }
}

/// The database persists: the path that one run saves, the next one loads if
/// the file is still there, whether or not the database was unloaded before the
/// run ended.
pub proof fn law_database_comes_back(db: DbState)
    requires
        db.wf(),
        db.loaded,
        db.path->0.len() > 0,
    ensures
        path_to_load(db.saved_path(), true) == db.path,
        path_to_load(db.unloaded().saved_path(), true) == db.path,
{
}

impl SolverDb {
    /// No database.
    pub fn new() -> (r: SolverDb)
        ensures
            r@.wf(),
            r@ == (DbState {
                loaded: false,
                path: None,
                catalog: None,
                building: false,
                prompt: false,
            }),
    {
        SolverDb { loaded: false, path: None, catalog: None, building: false, prompt: false }
    }

    /// The database to load at startup: the remembered one if its file is
    /// there.
    pub fn remembered<'a>(&self, path: &'a str, exists: bool) -> (r: Option<&'a str>)
        ensures
            path_view(r) == path_to_load(path@, exists),
    {
        if !path.is_empty() && exists {
            Some(path)
        } else {
            None
        }
    }

    /// Provides a database where none was loaded: the one generated before if
    /// its file is there (returned for loading), else an offer to build it from
    /// the bundled catalog. That keeps plate solving working offline.
    pub fn provision(&mut self, cache: &str, cache_exists: bool, catalog: Option<&str>) -> (r: Option<
        String,
    >)
        requires
            old(self)@.wf(),
            !old(self).building,
        ensures
            final(self)@.wf(),
            settings::opt_text(r) == (if !old(self).loaded && cache_exists {
                Some(cache@)
            } else {
                None
            }),
            final(self)@ == (if !old(self).loaded && !cache_exists && catalog is Some {
                DbState { catalog: path_view(catalog), prompt: true, ..old(self)@ }
            } else {
                old(self)@
            }),
    {
        if self.loaded {
            return None;
        }
        if cache_exists {
            return Some(cache.to_string());
        }
        match catalog {
            Some(c) => {
                self.catalog = Some(c.to_string());
                self.prompt = true;
            },
            None => {},
        }
        None
    }

    /// What is logged before a database is loaded at startup.
    pub fn loading_note(path: &str) -> (r: Note)
        ensures
            r@ == (LogLevel::Info, "Auto-loading database: "@ + path@),
    {
        session::info(text::join2("Auto-loading database: ", path))
    }

    /// A database was loaded at startup.
    pub fn loaded_at(&mut self, path: &str, size: DbSize) -> (r: Note)
        requires
            old(self)@.wf(),
        ensures
            final(self)@.wf(),
            final(self)@ == (DbState { loaded: true, path: Some(path@), ..old(self)@ }),
            r@ == (LogLevel::Info, "Database loaded: "@ + size_text(size)),
    {
        self.loaded = true;
        self.path = Some(path.to_string());
        let t: String = size_string(size);
        session::info(text::join2("Database loaded: ", t.as_str()))
    }

    /// Loading at startup failed.
    pub fn load_failed(err: &str) -> (r: Note)
        ensures
            r@ == (LogLevel::Error, "Auto-load failed: "@ + err@),
    {
        session::error(text::join2("Auto-load failed: ", err))
    }

    /// Starts building the database, unless one is being built or there is no
    /// catalog. Returns the catalog to build from.
    pub fn start_build(&mut self) -> (r: Option<(String, Note)>)
        requires
            old(self)@.wf(),
        ensures
            final(self)@.wf(),
            match r {
                Some((c, n)) => !old(self).building && old(self)@.catalog == Some(c@) && n@ == (
                    LogLevel::Info,
                    "Building star database from catalog\u{2026}"@,
                ) && final(self)@ == (DbState { building: true, prompt: false, ..old(self)@ }),
                None => (old(self).building || old(self)@.catalog is None) && final(self)@ == old(
                    self)@,
            },
    {
        if self.building {
            return None;
        }
        match &self.catalog {
            Some(c) => {
                let path: String = c.clone();
                self.building = true;
                self.prompt = false;
                Some(
                    (
                        path,
                        session::info("Building star database from catalog\u{2026}".to_string()),
                    ),
                )
            },
            None => None,
        }
    }

    /// The user does not want to build one now.
    pub fn put_off(&mut self)
        requires
            old(self)@.wf(),
        ensures
            final(self)@.wf(),
            final(self)@ == (DbState { prompt: false, ..old(self)@ }),
    {
        self.prompt = false;
    }

    /// The build came to an end after some tenths of a second: with a database
    /// that was cached at `cache`, or an error.
    pub fn built(&mut self, result: Result<DbSize, &str>, tenths: i64, cache: &str) -> (r: Note)
        requires
            old(self)@.wf(),
        ensures
            final(self)@.wf(),
            match result {
                Ok(size) => final(self)@ == (DbState {
                    building: false,
                    loaded: true,
                    path: Some(cache@),
                    ..old(self)@
                }) && r@ == (
                    LogLevel::Info,
                    "Star database built in "@ + text::tenths(tenths as int) + "s: "@ + size_text(
                        size,
                    ),
                ),
                Err(e) => final(self)@ == (DbState { building: false, ..old(self)@ }) && r@ == (
                    LogLevel::Error,
                    "Database build failed: "@ + e@,
                ),
            },
    {
        self.building = false;
        match result {
            Ok(size) => {
                self.loaded = true;
                self.path = Some(cache.to_string());
                let secs: String = text::tenths_text(tenths);
                let t: String = size_string(size);
                session::info(
                    text::join4("Star database built in ", secs.as_str(), "s: ", t.as_str()),
                )
            },
            Err(e) => session::error(text::join2("Database build failed: ", e)),
        }
    }

    /// The build ended without a result.
    pub fn build_lost(&mut self) -> (r: Note)
        requires
            old(self)@.wf(),
        ensures
            final(self)@.wf(),
            final(self)@ == (DbState { building: false, ..old(self)@ }),
            r@ == (LogLevel::Error, "Database build thread stopped unexpectedly"@),
    {
        self.building = false;
        session::error("Database build thread stopped unexpectedly".to_string())
    }

    /// The user unloaded the database. Its path is kept.
    pub fn unload(&mut self)
        requires
            old(self)@.wf(),
        ensures
            final(self)@.wf(),
            final(self)@ == old(self)@.unloaded(),
    {
        self.loaded = false;
    }

    /// The path to save for the next run.
    pub fn path_to_save(&self) -> (r: Option<&str>)
        ensures
            path_view(r) == self@.path,
            solve::path_text(r) == self@.saved_path(),
    {
        match &self.path {
            Some(p) => Some(p.as_str()),
            None => None,
        }
    }

    /// What is logged before a database that the user picked is loaded.
    pub fn picked_note(path: &str) -> (r: Note)
        ensures
            r@ == (LogLevel::Info, "Loading database: "@ + path@ + "..."@),
    {
        session::info(text::join3("Loading database: ", path, "..."))
    }

    /// A database that the user picked was loaded; its fields of view reach
    /// from `min_fov` to `max_fov` tenths of a degree.
    pub fn picked(&mut self, path: &str, size: DbSize, min_fov: i64, max_fov: i64) -> (r: Note)
        requires
            old(self)@.wf(),
        ensures
            final(self)@.wf(),
            final(self)@ == (DbState { loaded: true, path: Some(path@), ..old(self)@ }),
            r@ == (
                LogLevel::Info,
                "Database: "@ + size_text(size) + ", "@ + text::tenths(min_fov as int) + (
                "\u{b0}\u{2013}"@ + text::tenths(max_fov as int) + "\u{b0}"@),
            ),
    {
        self.loaded = true;
        self.path = Some(path.to_string());
        let t: String = size_string(size);
        let lo: String = text::tenths_text(min_fov);
        let hi: String = text::tenths_text(max_fov);
        let tail: String = text::join3("\u{b0}\u{2013}", hi.as_str(), "\u{b0}");
        session::info(
            text::join5("Database: ", t.as_str(), ", ", lo.as_str(), tail.as_str()),
        )
    }

    /// Loading a database that the user picked failed.
    pub fn pick_failed(err: &str) -> (r: Note)
        ensures
            r@ == (LogLevel::Error, "Load failed: "@ + err@),
    {
        session::error(text::join2("Load failed: ", err))
    }

    /// May a database be built from the bundled catalog right now?
    pub fn can_build(&self) -> (r: bool)
        ensures
            r == (!self.building && !self.loaded && self@.catalog is Some),
    {
        !self.building && !self.loaded && self.catalog.is_some()
    }
}

// ---------------------------------------------------------------------------
// The camera model

/// A camera model as it is described to the user.
#[derive(Clone, Copy, PartialEq, Eq, Structural, Debug)]
pub struct ModelFacts {
    /// Focal length in tenths of a pixel.
    pub focal: i64,
    pub width: u32,
    pub height: u32,
    /// Field of view in hundredths of a degree.
    pub fov: u64,
}

/// The facts of a camera model as text.
pub open spec fn facts_text(m: ModelFacts) -> Seq<char> {
    "f="@ + text::tenths(m.focal as int) + "px, "@ + (text::decimal(m.width as int) + "x"@
        + text::decimal(m.height as int)) + (", FOV "@ + text::hundredths(m.fov as nat)
        + "\u{b0}"@)
}

fn facts_string(m: ModelFacts) -> (r: String)
    ensures
        r@ == facts_text(m),
{
    let f: String = text::tenths_text(m.focal);
    let w: String = text::int_text(m.width as i128);
    let h: String = text::int_text(m.height as i128);
    let fov: String = text::hundredths_text(m.fov);
    let size: String = text::join3(w.as_str(), "x", h.as_str());
    let tail: String = text::join3(", FOV ", fov.as_str(), "\u{b0}");
    text::join5("f=", f.as_str(), "px, ", size.as_str(), tail.as_str())
}

/// What is logged of a camera model: one loaded at startup, or one that the
/// user picked.
pub fn model_note(m: ModelFacts, at_startup: bool) -> (r: Note)
    ensures
        r@ == (
            LogLevel::Info,
            (if at_startup {
                "Camera model loaded: "@
            } else {
                "Camera model: "@
            }) + facts_text(m),
        ),
{
    let t: String = facts_string(m);
    let head: &str = if at_startup {
        "Camera model loaded: "
    } else {
        "Camera model: "
    };
    session::info(text::join2(head, t.as_str()))
}

/// What is logged of a camera model that could not be loaded.
pub fn model_failed(err: &str) -> (r: Note)
    ensures
        r@ == (LogLevel::Error, "Camera model load failed: "@ + err@),
{
    session::error(text::join2("Camera model load failed: ", err))
}

// ---------------------------------------------------------------------------
// Laws of the transitions

/// A new database is none: nothing is loaded, remembered, offered or built.
pub proof fn law_no_database_at_first(r: SolverDb, can: bool, path: Option<&str>)
    requires
        call_ensures(SolverDb::new, (), r),
        call_ensures(SolverDb::can_build, (&r,), can),
        call_ensures(SolverDb::path_to_save, (&r,), path),
    ensures
        !r.loaded && !r.building && !r.prompt,
        r.path is None && r.catalog is None,
        !can,
        path is None,
{
}

/// The remembered database is loaded at startup where its file is there.
pub proof fn law_remembered_database_is_loaded(
    db: SolverDb,
    path: &'static str,
    there: bool,
    r: Option<&'static str>,
)
    requires
        call_ensures(SolverDb::remembered, (&db, path, there), r),
    ensures
        there && path@.len() > 0 ==> (r matches Some(p) && p@ == path@),
        !there || path@.len() == 0 ==> r is None,
{
}

/// Without a database the one generated before is loaded where its file is
/// there; else one is offered where there is a catalog. A loaded one is kept.
pub proof fn law_a_database_is_provided(
    db: &mut SolverDb,
    cache: &str,
    cache_exists: bool,
    catalog: Option<&str>,
    r: Option<String>,
)
    requires
        old(db)@.wf(),
        !old(db).building,
        call_ensures(SolverDb::provision, (db, cache, cache_exists, catalog), r),
    ensures
        !old(db).loaded && cache_exists ==> (r matches Some(p) && p@ == cache@) && final(db).prompt
            == old(db).prompt,
        old(db).loaded || !cache_exists ==> r is None,
        !old(db).loaded && !cache_exists ==> (catalog matches Some(c) ==> final(db).prompt && (
        final(db).catalog matches Some(p) && p@ == c@)),
        old(db).loaded || catalog is None ==> final(db).prompt == old(db).prompt
            && final(db)@.catalog == old(db)@.catalog,
        final(db).loaded == old(db).loaded && final(db).building == old(db).building
            && final(db)@.path == old(db)@.path,
{
}

/// A database that was loaded, at startup or because it was picked, is the one
/// to load next time, even if it is unloaded before.
pub proof fn law_loaded_database_is_remembered(
    db: &mut SolverDb,
    gone: &mut SolverDb,
    path: &str,
    size: DbSize,
    note: Note,
    saved: Option<&str>,
    later: Option<&str>,
)
    requires
        old(db)@.wf(),
        call_ensures(SolverDb::loaded_at, (db, path, size), note),
        *old(gone) == *final(db),
        call_ensures(SolverDb::unload, (gone,), ()),
        call_ensures(SolverDb::path_to_save, (&*final(db),), saved),
        call_ensures(SolverDb::path_to_save, (&*final(gone),), later),
    ensures
        final(db).loaded,
        saved matches Some(p) && p@ == path@,
        !final(gone).loaded,
        later matches Some(p) && p@ == path@,
        final(db).building == old(db).building && final(db).prompt == old(db).prompt
            && final(db)@.catalog == old(db)@.catalog,
        final(gone).building == old(db).building && final(gone).prompt == old(db).prompt
            && final(gone)@.catalog == old(db)@.catalog,
        note.level == LogLevel::Info && note.text@ == "Database loaded: "@ + (text::decimal(
            size.patterns as int,
        ) + " patterns, "@ + text::decimal(size.stars as int) + " stars"@),
{
}

/// A database that the user picked is loaded from where they picked it, and is
/// described by its size and its fields of view.
pub proof fn law_picked_database_is_loaded(
    db: &mut SolverDb,
    path: &str,
    size: DbSize,
    min_fov: i64,
    max_fov: i64,
    note: Note,
)
    requires
        old(db)@.wf(),
        call_ensures(SolverDb::picked, (db, path, size, min_fov, max_fov), note),
    ensures
        final(db).loaded,
        final(db).path matches Some(p) && p@ == path@,
        final(db).building == old(db).building && final(db).prompt == old(db).prompt
            && final(db)@.catalog == old(db)@.catalog,
        note.level == LogLevel::Info && note.text@ == "Database: "@ + (text::decimal(
            size.patterns as int,
        ) + " patterns, "@ + text::decimal(size.stars as int) + " stars"@) + ", "@ + text::tenths(
            min_fov as int,
        ) + ("\u{b0}\u{2013}"@ + text::tenths(max_fov as int) + "\u{b0}"@),
{
}

/// A build starts from the catalog, one at a time, and takes the offer away.
pub proof fn law_one_build_at_a_time(
    db: &mut SolverDb,
    again: &mut SolverDb,
    first: Option<(String, Note)>,
    second: Option<(String, Note)>,
)
    requires
        old(db)@.wf(),
        call_ensures(SolverDb::start_build, (db,), first),
        *old(again) == *final(db),
        call_ensures(SolverDb::start_build, (again,), second),
    ensures
        first is Some <==> !old(db).building && old(db).catalog is Some,
        first matches Some(p) ==> p.0@ == old(db).catalog->0@ && p.1.level == LogLevel::Info
            && p.1.text@ == "Building star database from catalog\u{2026}"@ && final(db).building
            && !final(db).prompt,
        first is None ==> final(db).building == old(db).building && final(db).prompt
            == old(db).prompt,
        second is None,
        final(db).loaded == old(db).loaded && final(db)@.path == old(db)@.path
            && final(db)@.catalog == old(db)@.catalog,
{
}

/// A build that succeeded is loaded from the cache; one that failed, or got
/// lost, is reported. Either way another may start.
pub proof fn law_build_comes_to_an_end(
    db: &mut SolverDb,
    lost: &mut SolverDb,
    result: Result<DbSize, &str>,
    tenths: i64,
    cache: &str,
    a: Note,
    b: Note,
)
    requires
        old(db)@.wf(),
        old(lost)@.wf(),
        call_ensures(SolverDb::built, (db, result, tenths, cache), a),
        call_ensures(SolverDb::build_lost, (lost,), b),
    ensures
        !final(db).building,
        result matches Ok(size) ==> final(db).loaded && (final(db).path matches Some(p) && p@
            == cache@) && a.level == LogLevel::Info && a.text@ == "Star database built in "@
            + text::tenths(tenths as int) + "s: "@ + (text::decimal(size.patterns as int)
            + " patterns, "@ + text::decimal(size.stars as int) + " stars"@),
        result matches Err(e) ==> final(db).loaded == old(db).loaded && final(db)@.path
            == old(db)@.path && a.level == LogLevel::Error && a.text@ == "Database build failed: "@
            + e@,
        final(db)@.catalog == old(db)@.catalog && final(db).prompt == old(db).prompt,
        !final(lost).building,
        final(lost).loaded == old(lost).loaded && final(lost)@.path == old(lost)@.path
            && final(lost)@.catalog == old(lost)@.catalog && final(lost).prompt
            == old(lost).prompt,
        b.level == LogLevel::Error && b.text@ == "Database build thread stopped unexpectedly"@,
{
}

/// Putting the offer off takes it away and nothing else; one can be built where
/// none is loaded or being built and there is a catalog.
pub proof fn law_offer_can_be_put_off(db: &mut SolverDb, can: bool)
    requires
        old(db)@.wf(),
        call_ensures(SolverDb::put_off, (db,), ()),
        call_ensures(SolverDb::can_build, (&*final(db),), can),
    ensures
        !final(db).prompt,
        final(db).loaded == old(db).loaded && final(db).building == old(db).building
            && final(db)@.path == old(db)@.path && final(db)@.catalog == old(db)@.catalog,
        can <==> !old(db).building && !old(db).loaded && old(db).catalog is Some,
{
}

/// The log tells what is loaded and what failed.
pub proof fn law_database_notes(path: &str, err: &str, a: Note, b: Note, c: Note, d: Note)
    requires
        call_ensures(SolverDb::loading_note, (path,), a),
        call_ensures(SolverDb::load_failed, (err,), b),
        call_ensures(SolverDb::picked_note, (path,), c),
        call_ensures(SolverDb::pick_failed, (err,), d),
    ensures
        a.level == LogLevel::Info && a.text@ == "Auto-loading database: "@ + path@,
        b.level == LogLevel::Error && b.text@ == "Auto-load failed: "@ + err@,
        c.level == LogLevel::Info && c.text@ == "Loading database: "@ + path@ + "..."@,
        d.level == LogLevel::Error && d.text@ == "Load failed: "@ + err@,
{
}

/// A camera model is described by its focal length, its size and its field of
/// view, width before height.
pub proof fn law_camera_model_is_described(
    m: ModelFacts,
    at_startup: bool,
    err: &str,
    a: Note,
    b: Note,
)
    requires
        call_ensures(model_note, (m, at_startup), a),
        call_ensures(model_failed, (err,), b),
    ensures
        a.level == LogLevel::Info && a.text@ == (if at_startup {
            "Camera model loaded: "@
        } else {
            "Camera model: "@
        }) + ("f="@ + text::tenths(m.focal as int) + "px, "@ + (text::decimal(m.width as int)
            + "x"@ + text::decimal(m.height as int)) + (", FOV "@ + text::hundredths(m.fov as nat)
            + "\u{b0}"@)),
        b.level == LogLevel::Error && b.text@ == "Camera model load failed: "@ + err@,
{
}

} // verus!
