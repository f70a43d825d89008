//! Reading and writing Unreal Engine save files (GVAS): a header, a root
//! holding a tree of typed properties, and the bytes that follow it.
pub mod bytes;
pub mod model;
pub mod strings;
pub mod types;
pub mod decode;
pub mod read;
pub mod read_props;
pub mod save;
pub mod encode;
pub mod write;
pub mod roundtrip;
pub mod laws;
pub mod readback;
pub mod names;
pub mod layout;
pub mod text_layout;
pub mod save_layout;
