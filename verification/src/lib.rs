pub mod error;
pub mod init;
pub mod ignore;
pub mod seed;
pub mod serve;
pub mod text;
