//! State models for small terminal applications: a text-input buffer with a
//! character cursor, a list with a wrap-around selection, a store of dated
//! tasks, and the page navigation that ties them together.
//!
//! Nothing here draws or reads a terminal. A front end hands key presses and
//! the date of today in, and reads the state back to render it.
//!
//! # Modules
//!
//! - [`text_buffer`]: a line of text and its cursor, edited character by
//!   character; [`strings`] holds the byte offsets it needs and [`width`] the
//!   display columns.
//! - [`selectable_list`]: a list with one selected item.
//! - [`task_store`]: dated tasks and the day that is looked at.
//! - [`navigation`] and [`planner`]: the pages of the day planner, and the
//!   planner's parts under one owner.
//! - [`input_prompt`], [`list_screen`], [`menu`] and [`panel`]: the states of
//!   four smaller screens.
//! - [`keys`]: keyboard events.
//!
//! # What is taken on trust
//!
//! Every function is verified against its contract but for these, whose
//! contracts are believed:
//!
//! - `char::len_utf8`, `String::insert`, `String::clear` and
//!   `String::replace_range` of the standard library, stated in [`strings`]
//!   over the UTF-8 encoding of the text;
//! - `UnicodeWidthChar::width` of `unicode_width`, whose result is named
//!   [`width::char_width`];
//! - `NaiveDate::checked_add_signed` of `chrono`, whose result is named
//!   [`task_store::day_shifted`].

pub mod input_prompt;
pub mod keys;
pub mod list_screen;
pub mod menu;
pub mod navigation;
pub mod panel;
pub mod planner;
pub mod selectable_list;
pub mod strings;
pub mod task_store;
pub mod text_buffer;
pub mod width;
