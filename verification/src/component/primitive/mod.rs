pub mod area;
pub mod limits;
pub mod margin;
pub mod offset;
pub mod order;
pub mod point;
pub mod scale;
pub mod size;

pub use limits::DIMENSION_MAX;
pub use margin::{Margin, MarginCreationError, MarginCreationResult};
pub use offset::{Offset, OffsetCreationError, OffsetCreationResult};
pub use point::{Point, PointCreationError, PointCreationResult};
pub use size::{CreationError as SizeCreationError, CreationResult as SizeCreationResult, Size};
pub use area::{Area, CreationError as AreaCreationError, CreationResult as AreaCreationResult};
pub use scale::{ScaleCreationError, ScaleCreationResult};
