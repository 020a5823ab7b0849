//! The script-facing side of one content view: where evaluations start and
//! where message handlers subscribe.

use vstd::prelude::*;
use crate::evaluation::{CellModel, EvalMode, PendingEvaluation};
use crate::ipc::{IpcChannel, IpcModel, IpcSubscription};

verus! {

/// A content view `C` together with its message channel.
pub struct LuaWebView<C> {
    /// The handle of the native content view.
    pub webview: C,
    /// The channel on which the page's messages are published.
    pub ipc: IpcChannel,
}

impl<C> LuaWebView<C> {
    /// Wraps a fresh content view. Nothing has been published on its channel
    /// and nobody listens yet.
    pub fn new(webview: C) -> (view: LuaWebView<C>)
        ensures
            view.webview == webview,
            view.ipc@ == IpcModel::empty(),
    {
        LuaWebView { webview, ipc: IpcChannel::new() }
    }

    /// Starts an evaluation of `script` whose caller waits for the result.
    pub fn evaluate(&self, script: String) -> (cell: PendingEvaluation)
        ensures
            cell@ == CellModel::created(script@, EvalMode::Await),
    {
        PendingEvaluation::new(script, EvalMode::Await)
    }

    /// Starts an evaluation of `script` whose result goes to a handler.
    pub fn evaluate_callback(&self, script: String) -> (cell: PendingEvaluation)
        ensures
            cell@ == CellModel::created(script@, EvalMode::Callback),
    {
        PendingEvaluation::new(script, EvalMode::Callback)
    }

    /// Subscribes a message handler and returns the handle with which it can
    /// be shut down again.
    pub fn ipc_handler(&mut self) -> (subscription: IpcSubscription)
        ensures
            final(self).ipc@ == old(self).ipc@.subscribed(),
            final(self).webview == old(self).webview,
            subscription.id == old(self).ipc@.subscribers.len(),
    {
        self.ipc.subscribe()
    }

    /// Publishes a message that the page posted.
    pub fn post_message(&mut self, message: String)
        ensures
            final(self).ipc@ == old(self).ipc@.published(message@),
            final(self).webview == old(self).webview,
    {
        self.ipc.publish(message);
    }
}

} // verus!
