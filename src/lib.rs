pub mod capabilities;
pub mod model;
pub mod text;
pub mod time;
pub mod app;
pub mod view_model;
