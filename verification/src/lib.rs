//! Core logic of an animated terminal front-end for browsing classes and
//! students, triggering repository operations, and viewing remote commit
//! activity.
//!
//! The crate holds the pieces worth reasoning about: the animation engine
//! (easing curves, tweens, particles), the navigation stack and screen
//! models, the application controller that turns key presses into state
//! changes and I/O requests, and the pure summarisation of collaborator
//! results. Terminal drawing, storage, HTTP and process spawning live
//! outside, behind plain-value interfaces.

pub mod activity;
pub mod animation;
pub mod color;
pub mod config;
pub mod confirm;
pub mod controller;
pub mod easing;
pub mod events;
pub mod gitops;
pub mod input;
pub mod keys;
pub mod layout;
pub mod loading;
pub mod menu;
pub mod models;
pub mod screen;
pub mod screens;
pub mod state;
pub mod strutil;
pub mod themes;
