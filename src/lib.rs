//! A bridge that exposes native values to a rule evaluator: type descriptors,
//! type-erased instances, and the conversion of native results into terms.

pub mod class;
pub mod errors;
pub mod host;
pub mod table;
pub mod to_polar;
pub mod value;

pub use class::{
    equality_not_supported, Class, Constructor, EqualityCheck, Instance, Native, CLASS_TYPE_ID,
};
pub use errors::OsoError;
pub use host::Host;
pub use table::{ClassMethod, InstanceMethod, Invocable, Table};
pub use to_polar::{PolarIter, PolarResult, Returned, ToPolar, ToPolarResults};
pub use value::{dictionary_to_polar, list_to_polar, string_to_polar, Object, Scalar, Value};
