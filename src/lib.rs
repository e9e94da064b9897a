//! Safe building blocks for file-manager extensions: capability contracts,
//! bounded registration slots with total dispatch, marshaling of text to the
//! host's null-terminated convention, the asynchronous info-update protocol,
//! menu-tree materialization and the composite type registration plan.

pub mod column_provider;
pub mod info_provider;
pub mod menu_provider;
pub mod nautilus_module;
pub mod property_page_provider;
pub mod slots;
pub mod text;

pub use column_provider::{Column, ColumnProvider};
pub use info_provider::{FileInfo, InfoProvider};
pub use menu_provider::{Menu, MenuItem, MenuProvider};
pub use nautilus_module::NautilusModule;
pub use property_page_provider::{PropertyPage, PropertyPageProvider};
