//! A to-do list manager: tasks with a title, an optional description, an
//! optional due date and a status, kept in an ordered collection that hands
//! out their ids.

pub mod command;
pub mod configuration;
pub mod naive_date_time_wrapper;
pub mod persistence;
pub mod shell;
pub mod supported_persistence;
pub mod task;
pub mod task_list;
pub mod task_status;
pub mod text;
