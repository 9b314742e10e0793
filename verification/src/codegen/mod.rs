//! What the service macros generate, from what they read in the source.

pub mod names;
pub mod plan;

pub use names::to_pascal_case;
pub use plan::{
    has_attribute, is_unit_return, plan_factory, plan_service, read_service_option,
    service_option, Argument, AttributePath, DeriveTarget, ImplItem, ImplTarget, MacroError, MessageField, Method,
    MethodPlan, OptionTokens, Param, PathSegment, ReturnKind, ServicePlan,
};
