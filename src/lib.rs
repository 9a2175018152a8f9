//! Playing cards laid out and moved in a 3D scene: the pose model, the layout
//! calculator for hands and desk zones, the member lists of lines and zones,
//! and the transitions that membership changes and pointer events trigger.

pub mod card;
pub mod drop;
pub mod geometry;
pub mod layout;
pub mod membership;
pub mod pose;
pub mod relayout;
pub mod tween;
