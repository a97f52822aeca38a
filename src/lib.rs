pub mod color;
pub mod common;
pub mod error;
pub mod lock;
pub mod text;
pub mod outside;
pub mod artifact;
pub mod expo;
pub mod scan;
pub mod pipeline;
pub mod layout;
pub mod calibrate;
pub mod navigate;
pub mod packet;
