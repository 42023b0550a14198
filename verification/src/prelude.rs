//! One import for the whole surface of the library.
pub use crate::array::Array;
pub use crate::datetime::{CivilDate, DateTime, Duration, UtcMoment, UtcZone, WallTime};
pub use crate::number::{Number, NumberType};
pub use crate::object::{Object, ObjectIter};
pub use crate::stringb::{StringB, StringBehavior};
pub use crate::to::json::JsonMode;
pub use crate::traits::{FromValueBehavior, PrimitiveType, ToJsonBehavior, ToValueBehavior,
    ToXmlBehavior, ToYamlBehavior, ValueBehavior, ValueKeyBehavior, ValueTrait};
pub use crate::value::Value;
pub use crate::value_key::ValueKey;
pub use crate::Error;
