//! The plotting context that every plot is drawn in.
use vstd::prelude::*;

verus! {

/// A plotting context of the backend, known by the handle that the backend
/// gave out for it.
#[derive(Debug)]
pub struct Context {
    raw: usize,
}

impl Context {
    /// The handle of the backend's context.
    pub closed spec fn spec_handle(&self) -> usize {
        self.raw
    }

    /// Takes charge of the backend's context with the handle `raw`.
    pub fn new(raw: usize) -> (context: Context)
        ensures
            context.spec_handle() == raw,
    {
        Context { raw }
    }

    /// The handle of the backend's context.
    #[verifier::when_used_as_spec(spec_handle)]
    pub fn handle(&self) -> (raw: usize)
        ensures
            raw == self.spec_handle(),
    {
        self.raw
    }

    /// A reference for building plots in this context.
    pub fn get_plot_ui(&self) -> (ui: PlotUi<'_>)
        ensures
            ui.spec_context() == *self,
    {
        PlotUi { context: self }
    }
}

/// A temporary reference for building plots. It shows that a context exists
/// and lives at least as long as the plots that are built through it.
#[derive(Debug)]
pub struct PlotUi<'ui> {
    context: &'ui Context,
}

impl<'ui> PlotUi<'ui> {
    /// The context that plots built through this reference are drawn in.
    pub closed spec fn spec_context(&self) -> Context {
        *self.context
    }

    /// The context that plots built through this reference are drawn in.
    pub fn context(&self) -> (context: &'ui Context)
        ensures
            *context == self.spec_context(),
    {
        self.context
    }
}

} // verus!
