//! The decision core of the SK Music desktop shell.
//!
//! The shell shows the web player in a window and adds what a browser cannot: a tray, the operating
//! system's media keys, a mini player, deep links, offline downloads and self-updates. This crate
//! holds what those parts decide and compute, as functions from plain values to plain values; the
//! windows, the network and the disk are the app's.
//!
//! - [`deeplink`]: which links the app follows, and where they lead
//! - [`download`]: offline songs, from the request to the answer that plays them
//! - [`jumplist`] and [`launch`]: the taskbar's tasks, and what a command line asks for
//! - [`media`] and [`script`]: the state of playback, and the actions that reach the page
//! - [`mini`]: the mini player's window and its place
//! - [`settings`]: what outlives a run
//! - [`tray`]: the tray's menu, texts and icon
//! - [`updater`]: one check at a time, one install for each update
//! - [`outside`]: the calls into other crates
//! - [`table`] and [`text`]: tables with text keys, and functions on texts
use vstd::prelude::*;

pub mod deeplink;
pub mod download;
pub mod jumplist;
pub mod launch;
pub mod media;
pub mod mini;
pub mod outside;
pub mod script;
pub mod settings;
pub mod table;
pub mod text;
pub mod tray;
pub mod updater;

verus! {

} // verus!
