pub mod channel;
pub mod frame;
pub mod player;
pub mod settings;
pub mod status;
pub mod subscription;
