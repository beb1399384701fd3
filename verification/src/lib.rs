pub mod decode;
pub mod keyboard;
pub mod relay;
