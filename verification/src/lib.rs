pub mod wire;
pub mod protocol;
pub mod packet;
pub mod registry;
pub mod binding;
pub mod procedure;
pub mod text;
pub mod naming;
pub mod util;
pub mod cmd;
pub mod table_view;
pub mod kv_view;
pub mod args;
pub mod connect;
pub mod locale;
pub mod codegen;
