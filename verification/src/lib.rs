//! A small library for looking up the caller's external IP address through
//! the ipify web service: selecting an IP version, mapping it to the fixed
//! HTTPS endpoint, and turning the transport's outcome into the fetched text.

pub mod client;
pub mod error;
