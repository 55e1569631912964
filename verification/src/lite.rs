pub mod conf;
pub mod run;
