//! Request-scoped service resolution: each inbound request gets a resolution
//! scope of its own, and typed extractors resolve services from that scope.

pub mod context;
pub mod facade;
pub mod identity;
pub mod inject;
pub mod inject_keyed;
pub mod keyed;
pub mod outcome;
pub mod rejection;
pub mod report;

pub use context::{attach_scope, attached_scope};
pub use identity::{Asked, AskedWithKey};
pub use inject::{Inject, InjectAll, InjectAllMut, InjectMut, TryInject, TryInjectMut};
pub use inject_keyed::{
    InjectAllWithKey, InjectAllWithKeyMut, InjectWithKey, InjectWithKeyMut, TryInjectWithKey,
    TryInjectWithKeyMut,
};
pub use keyed::{Keyed, KeyedMut};
pub use rejection::{reject, require, Rejection};
pub use report::{
    unregistered, unregistered_type, unregistered_type_message, unregistered_type_with_key,
    unregistered_type_with_key_message,
};
