//! State, rules and text formats of a live astronomy camera viewer.

pub mod text;

// Where frames come from.
pub mod sources;
pub mod frames;
pub mod pixels;
pub mod sim;
pub mod playback;

// Cameras and servers.
pub mod toupcam_camera;
pub mod toupcam_open;
pub mod toupcam_capture;
pub mod toupcam_panel;
pub mod svbony_controls;
pub mod exposure_entry;
pub mod gev;
pub mod indi;

// What is written to disk.
pub mod fits_header;
pub mod wcs;
pub mod recording;
pub mod settings;

// Plate solving.
pub mod solve;
pub mod solver_db;

// What is shown.
pub mod display;
pub mod histogram_view;
pub mod layout;
pub mod logbook;
pub mod readouts;
pub mod theme;
pub mod session;
