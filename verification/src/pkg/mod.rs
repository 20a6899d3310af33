pub mod etc;
pub mod github;
pub mod http;
pub mod model;
