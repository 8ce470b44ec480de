//! The rules behind a small toolkit for the command line.
//!
//! The heart of it is the password generator: [`password`] turns a
//! description of the wanted passwords into the alphabet they are drawn
//! from, [`sampler`] draws them, and [`engine`] runs a whole request.
//! [`charset`] and [`classes`] hold the sets and classes of characters that
//! these work on.
//!
//! The other modules decide what the remaining commands do with their
//! arguments and with what they are handed: [`hash`] for digests, [`qr`] for
//! QR codes, [`ssh`] for saved connections, [`currency`] for the lists of
//! exchange rates, [`update`] and [`version`] for updates of the program
//! itself. [`text`] has the helpers on text that they share.

pub mod charset;
pub mod classes;
pub mod currency;
pub mod engine;
pub mod hash;
pub mod password;
pub mod qr;
pub mod sampler;
pub mod ssh;
pub mod text;
pub mod update;
pub mod version;
