//! Virtual display specs for a menu-bar tool that adds virtual screens to a
//! Mac at a chosen size (in points) and density (1x or 2x): reading and
//! checking a spec, the identity a display of it reports, the displays a
//! session holds, and the menu that shows them.

pub mod digits;
pub mod text;
pub mod error;
pub mod display;
pub mod draft;
pub mod session;
pub mod menu;
