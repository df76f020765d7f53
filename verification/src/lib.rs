//! Client-side logic of the library-management web front end: the data it
//! exchanges with the server, the requests it sends, how it reads replies,
//! the session, toast and cache state it keeps, and the decisions its pages
//! take on user input.

pub mod actions;
pub mod api;
pub mod catalog;
pub mod flows;
pub mod forms;
pub mod json;
pub mod models;
pub mod pages;
pub mod state;
pub mod text;
