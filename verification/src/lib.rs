pub mod account;
pub mod article;
pub mod base_comm;
pub mod behavior;
pub mod clock;
pub mod config;
pub mod courier;
pub mod diet;
pub mod draft;
pub mod errors;
pub mod infra_err;
pub mod internal;
pub mod journal;
pub mod jwt;
pub mod remark;
pub mod storage;
pub mod user;
pub mod wish;
