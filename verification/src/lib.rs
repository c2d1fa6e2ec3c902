//! The logic of tailclip, a shared clipboard for a tailnet: copy on one machine,
//! paste on another.
//!
//! A server holds one clip in memory and numbers its changes. Clients push what is
//! copied, and wait for the end of the version that they have seen.
//!
//! - [`server`]: the clip, the long poll, and the answers to requests.
//! - [`bind`]: the addresses that the server may listen on.
//! - [`client`]: the requests of a client, and what it makes of the replies.
//! - [`payload`] and [`image`]: a clip as text or as a PNG.
//! - [`sync`]: what a change of the pasteboard and a reply of the server lead to.
//! - [`cli`] and [`selftest`]: the command line, and the script of the selftest.
//! - [`text`]: decimal numbers, and text cut at a separator.
//! - [`laws`]: what holds of all of this together, and of each part and each call.
//! - [`outside`]: the calls into other crates, whose contracts are not proved.
//!
//! Sockets, files, threads, the clock and the pasteboard are not here. The functions
//! take what came from there as plain values, and say what is to be done next.

pub mod bind;
pub mod cli;
pub mod client;
pub mod image;
pub mod laws;
pub mod outside;
pub mod payload;
pub mod selftest;
pub mod server;
pub mod sync;
pub mod text;
