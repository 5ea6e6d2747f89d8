pub mod app;
pub mod arguments;
pub mod install;
pub mod launch;
pub mod manifest;
pub mod modding;
pub mod options;
pub mod path;
pub mod rendering;
pub mod text;
pub mod time;
pub mod utils;
pub mod version_list;
