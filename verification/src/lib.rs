pub mod text;
pub mod lsp_any;
pub mod listener;
pub mod lsp_json;
pub mod fmod;
pub mod paths;
pub mod keyed;
pub mod workspace;
pub mod message_manager;
pub mod server;
pub mod protocol;
