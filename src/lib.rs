//! Interaction logic of a pick list, its dropdown menu and a mouse area:
//! hover tracking, click classification, row hit testing, keyboard-modified
//! scroll selection and the open/closed state machine that ties them together.
pub mod geometry;
pub mod event;
pub mod click;
pub mod hover;
pub mod rows;
pub mod selector;
pub mod menu;
pub mod pick_list;
pub mod mouse_area;
