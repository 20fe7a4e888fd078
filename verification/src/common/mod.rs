pub mod filter;
pub mod ids;
pub mod json;
pub mod kv;
pub mod text;
pub mod time;
pub mod version;
pub mod version_order;
