//! Verified core of the IML manager, agent and service logic.

pub mod db;
pub mod text;
pub mod wire;
pub mod virtual_device;
pub mod components;
pub mod ntp;
pub mod time;
pub mod agent_error;
pub mod ntp_service;
pub mod env;
pub mod cli;
pub mod warp_drive;
pub mod inode_table;
pub mod filesystem_page;
pub mod name_order;
