pub mod decimal;
pub mod text;
pub mod url_target;
pub mod proxy;
pub mod feed;
pub mod tray;
