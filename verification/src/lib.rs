//! Offline toolkit for passphrase-based encryption and password generation.
//!
//! [`crypt`] turns a passphrase into a key and encrypts or decrypts byte
//! payloads with it. [`gen`] draws random passwords from selectable
//! character classes. [`gui`] keeps the state of the form that a graphical
//! front end shows.

pub mod crypt;
pub mod gen;
pub mod gui;
