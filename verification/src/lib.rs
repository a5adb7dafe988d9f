//! Core geometry primitives for gesso: a dual-space 2D coordinate system.
//!
//! Two zero-sized tag types distinguish DPI-independent logical coordinates
//! from physical device-pixel coordinates, so that values from the two spaces
//! cannot be mixed without an explicit conversion through a scale factor.
//! Scalars are carried as the IEEE 754 single-precision bit patterns of the
//! numbers they encode, which makes the scale factor's validity invariant
//! (finite, positive, nonzero) plain integer logic, while the componentwise
//! scaling arithmetic goes through a software implementation of the format.

pub mod geometry;

pub use geometry::DevicePixels;
pub use geometry::DevicePoint;
pub use geometry::DeviceRect;
pub use geometry::DeviceSize;
pub use geometry::LogicalPixels;
pub use geometry::Point;
pub use geometry::Point2;
pub use geometry::Rect;
pub use geometry::Rect2;
pub use geometry::ScaleFactor;
pub use geometry::Size;
pub use geometry::Size2;
pub use geometry::Vector;
pub use geometry::Vector2;
