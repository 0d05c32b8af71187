//! Sidebar place/navigation model for a social-network desktop client.
//!
//! The library owns the decision logic of the navigation sidebar: the data
//! model for navigable destinations ("places"), the ordering, separator and
//! badge rendering rules for the sidebar list, the global action registry
//! with its qualified identifiers, and the routing of user gestures to typed
//! output events. Rendering, window chrome and all real I/O live outside, in
//! whatever shell drives this model.

pub mod actions;
pub mod dispatch;
pub mod item;
pub mod menu;
pub mod places;
pub mod sidebar;

pub use actions::AppAction;
pub use item::Item;
pub use menu::SidebarMenuItem;
pub use places::ListId;
pub use places::Place;
pub use places::StaticPlace;
pub use sidebar::Sidebar;
pub use sidebar::SidebarOutput;
