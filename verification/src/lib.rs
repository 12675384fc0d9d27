//! Resolution of utility-class shorthand: token sequences are parsed into typed
//! utilities, rendered back to their canonical class names, and compared through
//! their collision identifiers.

pub mod anchor;
pub mod arbitrary;
pub mod cascade;
pub mod color;
pub mod error;
pub mod laws;
pub mod left;
pub mod negative;
pub mod object_position;
pub mod padding_scroll;
pub mod spacing;
pub mod text;
pub mod unit;
pub mod utility;

pub use crate::arbitrary::TailwindArbitrary;
pub use crate::cascade::cascade;
pub use crate::color::TailwindColor;
pub use crate::error::{SyntaxError, SyntaxErrorKind};
pub use crate::left::TailwindLeft;
pub use crate::negative::Negative;
pub use crate::object_position::TailwindObjectPosition;
pub use crate::padding_scroll::TailwindScrollPadding;
pub use crate::utility::{dispatch, dispatch_signed, ResolvedUtility};
