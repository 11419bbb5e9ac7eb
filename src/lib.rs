//! Provisioning helpers for shell-restricted SSH accounts and the encoder that
//! turns a connection profile into an importable `sn://ssh?` link and QR image.
pub mod link;
pub mod qr;
pub mod accounts;
pub mod settings;
