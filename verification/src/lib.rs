//! Viewport transform engine for an interactive image viewer.
//!
//! The viewer pans by dragging and zooms by scrolling, with every zoom step
//! anchored at the cursor so the pixel under the pointer stays put.  This
//! crate holds the verified core: the drag tracker and the controller that
//! folds pointer and wheel input into an accumulated translation and scale.
//! All arithmetic is exact: the zoom step 1.2 is carried as the fraction 6/5,
//! so the anchored-zoom and round-trip properties hold with equality instead
//! of a floating-point tolerance.  Surface plumbing (canvas, image loading,
//! event subscription) lives outside the library.

pub mod drag;
pub mod mouse_position;
pub mod viewport;

pub use mouse_position::MousePosition;
