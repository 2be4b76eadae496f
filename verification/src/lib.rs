//! Native-shell logic for a desktop markdown editor: the read-once
//! opened-file slot, the menu-bar description, and the dispatch that
//! turns menu activations and OS open-file signals into UI events.

pub mod event;
pub mod launch;
pub mod menu;
pub mod relay;
