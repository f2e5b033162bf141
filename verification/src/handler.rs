//! The command handler: the entry point of every operation on components.

use crate::model::BuildProfileName;
use std::sync::Arc;
use vstd::prelude::*;

verus! {

/// What the handler knows about the invocation it serves.
#[derive(Clone, Debug, PartialEq, Eq)]
pub struct Context {
    /// The build profile that was asked for, if any.
    pub build_profile: Option<BuildProfileName>,
}

/// Starts the operations on components.
pub struct ComponentCommandHandler {
    ctx: Arc<Context>,
}

impl ComponentCommandHandler {
    /// The context this handler was made with.
    pub closed spec fn context(&self) -> Context {
        *self.ctx
    }

    /// A handler that serves `ctx`.
    pub fn new(ctx: Arc<Context>) -> (handler: Self)
        ensures
            handler.context() == *ctx,
    {
        Self { ctx }
    }

    /// The build profile that was asked for, if any.
    pub fn build_profile(&self) -> (profile: Option<BuildProfileName>)
        ensures
            profile == self.context().build_profile,
    {
        match &self.ctx.build_profile {
            Some(profile) => Some(profile.duplicate()),
            None => None,
        }
    }
}

} // verus!
