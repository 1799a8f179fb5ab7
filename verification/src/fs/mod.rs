pub mod async_job;
pub mod file;
pub mod file_info;
pub mod file_info_task;
pub mod file_time;
pub mod permissions;
pub mod size;
pub mod text_preview;
