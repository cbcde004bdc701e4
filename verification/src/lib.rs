//! Decision logic for upgrading a recovery partition from an installer image:
//! which release a machine moves to, whether a build of it can be had, and in
//! what order the image is fetched, checked, mounted and mirrored.

pub mod checksum;
pub mod recovery;
pub mod release;
mod text;
