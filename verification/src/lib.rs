pub mod access_point;
pub mod access_point_laws;
pub mod attribute;
pub mod attributes;
pub mod command;
pub mod error;
pub mod frame;
pub mod generic;
pub mod information_element;
pub mod monitor;
pub mod monitor_laws;
pub mod native;
pub mod ranking;
pub mod request;
pub mod scan;
pub mod survey;
pub mod text;
pub mod transport;
pub mod user_command;
