//! The site-specific extractors that come with the library.

pub mod farcaster;

pub use farcaster::FarcasterExtractor;
