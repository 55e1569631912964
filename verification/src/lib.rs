pub mod conf;
pub mod lite;
pub mod os;
pub mod run;
pub mod state;
pub mod text;
