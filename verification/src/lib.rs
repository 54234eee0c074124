//! The decisions of a face-recognition door lock, apart from every network call.
//!
//! The service captures or receives a photo, asks a face-recognition collection who is on
//! it, unlocks a door when somebody is recognised, keeps a log of what happened and shows it
//! all on a dashboard. This library holds what is decided and computed on the way. The
//! program around it performs the requests that the library hands out and hands back the
//! replies.
pub mod access;
pub mod access_laws;
pub mod access_log;
pub mod api;
pub mod calendar;
pub mod dashboard;
pub mod door;
pub mod enrolment;
pub mod forms;
pub mod operations;
pub mod page;
pub mod rekognition;
pub mod roster;
pub mod settings;
pub mod startup;
pub mod state;
pub mod status;
pub mod text;
pub mod time;
