pub mod win;
pub mod zsh;

pub use win::Win;
pub use zsh::Zsh;
