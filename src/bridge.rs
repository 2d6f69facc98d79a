//! Integer ids for handles, for bindings whose callers can only hold a
//! small integer (a managed runtime's `int`).
use vstd::prelude::*;
use std::collections::HashMap;
use crate::registry::{SwipePredictorContext, SwipePredictorHandle};

verus! {

/// The current registry, and the handles created from it under positive
/// `i32` ids, for the iOS binding.
pub struct HandleStorage {
    pub context: Option<SwipePredictorContext>,
    pub handles: HashMap<i32, SwipePredictorHandle>,
    /// The id that the next handle gets; ids start from 1 so that 0 and -1
    /// can mean failure.
    pub next_id: i32,
}

/// The same bookkeeping for the Android binding.
pub struct AndroidState {
    pub context: Option<SwipePredictorContext>,
    pub handles: HashMap<i32, SwipePredictorHandle>,
    pub next_id: i32,
}

pub open spec fn ids_wf(handles: Map<i32, SwipePredictorHandle>, next_id: i32) -> bool {
    &&& next_id >= 1
    &&& forall|id: i32| #[trigger] handles.contains_key(id) ==> id >= 1
}

/// Creates a predictor in `context` and files its handle under `next_id`,
/// which it returns, advancing the counter. Returns `None`, filing nothing,
/// when there is no registry, the registry is full, or `next_id` is still
/// held by a live handle (the counter then moves on, so that an old handle
/// is never replaced by a new one under the same id).
fn file_new_handle(
    context: &Option<SwipePredictorContext>,
    handles: &mut HashMap<i32, SwipePredictorHandle>,
    next_id: &mut i32,
) -> (r: Option<i32>)
    requires
        ids_wf(old(handles)@, *old(next_id)),
    ensures
        ids_wf(final(handles)@, *final(next_id)),
        context.is_none() ==> r.is_none() && *final(next_id) == *old(next_id),
        old(handles)@.contains_key(*old(next_id)) ==> r.is_none(),
        r.is_none() ==> final(handles)@ == old(handles)@,
        r matches Some(id) ==> {
            &&& id == *old(next_id)
            &&& !old(handles)@.contains_key(id)
            &&& final(handles)@.dom() == old(handles)@.dom().insert(id)
            &&& forall|k: i32| #[trigger]
                old(handles)@.contains_key(k) ==> final(handles)@[k] == old(handles)@[k]
            &&& *final(next_id) == id_after(id)
        },
{
    let created = match context {
        Some(context) => {
            if handles.contains_key(next_id) {
                *next_id = if *next_id == i32::MAX {
                    1
                } else {
                    *next_id + 1
                };
                return None;
            }
            context.create_predictor()
        },
        None => {
            return None;
        },
    };
    match created {
        Ok(handle) => {
            let id = *next_id;
            let _ = handles.insert(id, handle);
            *next_id = if id == i32::MAX {
                1
            } else {
                id + 1
            };
            proof {
                assert(handles@.dom() =~= old(handles)@.dom().insert(id));
            }
            Some(id)
        },
        Err(_) => None,
    }
}

/// The id after `id`: ids run through `1 ..= i32::MAX` and start over at 1.
pub open spec fn id_after(id: i32) -> i32 {
    if id == i32::MAX {
        1
    } else {
        (id + 1) as i32
    }
}

impl HandleStorage {
    pub open spec fn wf(&self) -> bool {
        ids_wf(self.handles@, self.next_id)
    }

    /// No registry, no handles, and ids starting from 1.
    pub fn new() -> (r: Self)
        ensures
            r.wf(),
            r.context.is_none(),
            r.handles@ == Map::<i32, SwipePredictorHandle>::empty(),
            r.next_id == 1,
    {
        HandleStorage { context: None, handles: HashMap::new(), next_id: 1 }
    }

    /// Makes `context` the current registry, dropping the previous registry
    /// and all handles, and starts ids again from 1.
    pub fn install_context(&mut self, context: SwipePredictorContext)
        ensures
            final(self).wf(),
            final(self).context == Some(context),
            final(self).handles@ == Map::<i32, SwipePredictorHandle>::empty(),
            final(self).next_id == 1,
    {
        self.handles.clear();
        self.context = Some(context);
        self.next_id = 1;
    }

    /// Creates a predictor in the current registry and files its handle
    /// under the next id (see `file_new_handle`).
    pub fn register_predictor(&mut self) -> (r: Option<i32>)
        requires
            old(self).wf(),
        ensures
            final(self).wf(),
            final(self).context == old(self).context,
            old(self).context.is_none() ==> r.is_none() && final(self).next_id == old(self).next_id,
            old(self).handles@.contains_key(old(self).next_id) ==> r.is_none(),
            r.is_none() ==> final(self).handles@ == old(self).handles@,
            r matches Some(id) ==> {
                &&& id == old(self).next_id
                &&& !old(self).handles@.contains_key(id)
                &&& final(self).handles@.dom() == old(self).handles@.dom().insert(id)
                &&& forall|k: i32| #[trigger]
                    old(self).handles@.contains_key(k) ==> final(self).handles@[k]
                        == old(self).handles@[k]
                &&& final(self).next_id == id_after(id)
            },
    {
        file_new_handle(&self.context, &mut self.handles, &mut self.next_id)
    }

    /// The handle filed under `id`.
    pub fn handle(&self, id: i32) -> (r: Option<&SwipePredictorHandle>)
        ensures
            self.handles@.contains_key(id) ==> r == Some(&self.handles@[id]),
            !self.handles@.contains_key(id) ==> r.is_none(),
    {
        self.handles.get(&id)
    }

    /// Takes the handle filed under `id` out of the table.
    pub fn remove_handle(&mut self, id: i32) -> (r: Option<SwipePredictorHandle>)
        requires
            old(self).wf(),
        ensures
            final(self).wf(),
            final(self).context == old(self).context,
            final(self).next_id == old(self).next_id,
            final(self).handles@ == old(self).handles@.remove(id),
            old(self).handles@.contains_key(id) ==> r == Some(old(self).handles@[id]),
            !old(self).handles@.contains_key(id) ==> r.is_none(),
    {
        self.handles.remove(&id)
    }

    /// Drops every handle and the registry, and starts ids again from 1.
    pub fn shutdown(&mut self)
        ensures
            final(self).wf(),
            final(self).context.is_none(),
            final(self).handles@ == Map::<i32, SwipePredictorHandle>::empty(),
            final(self).next_id == 1,
    {
        self.handles.clear();
        self.context = None;
        self.next_id = 1;
    }
}

impl AndroidState {
    pub open spec fn wf(&self) -> bool {
        ids_wf(self.handles@, self.next_id)
    }

    /// No registry, no handles, and ids starting from 1.
    pub fn new() -> (r: Self)
        ensures
            r.wf(),
            r.context.is_none(),
            r.handles@ == Map::<i32, SwipePredictorHandle>::empty(),
            r.next_id == 1,
    {
        AndroidState { context: None, handles: HashMap::new(), next_id: 1 }
    }

    /// Makes `context` the current registry, dropping the previous registry
    /// and all handles, and starts ids again from 1.
    pub fn install_context(&mut self, context: SwipePredictorContext)
        ensures
            final(self).wf(),
            final(self).context == Some(context),
            final(self).handles@ == Map::<i32, SwipePredictorHandle>::empty(),
            final(self).next_id == 1,
    {
        self.handles.clear();
        self.context = Some(context);
        self.next_id = 1;
    }

    /// Creates a predictor in the current registry and files its handle
    /// under the next id (see `file_new_handle`).
    pub fn register_predictor(&mut self) -> (r: Option<i32>)
        requires
            old(self).wf(),
        ensures
            final(self).wf(),
            final(self).context == old(self).context,
            old(self).context.is_none() ==> r.is_none() && final(self).next_id == old(self).next_id,
            old(self).handles@.contains_key(old(self).next_id) ==> r.is_none(),
            r.is_none() ==> final(self).handles@ == old(self).handles@,
            r matches Some(id) ==> {
                &&& id == old(self).next_id
                &&& !old(self).handles@.contains_key(id)
                &&& final(self).handles@.dom() == old(self).handles@.dom().insert(id)
                &&& forall|k: i32| #[trigger]
                    old(self).handles@.contains_key(k) ==> final(self).handles@[k]
                        == old(self).handles@[k]
                &&& final(self).next_id == id_after(id)
            },
    {
        file_new_handle(&self.context, &mut self.handles, &mut self.next_id)
    }

    /// The handle filed under `id`.
    pub fn handle(&self, id: i32) -> (r: Option<&SwipePredictorHandle>)
        ensures
            self.handles@.contains_key(id) ==> r == Some(&self.handles@[id]),
            !self.handles@.contains_key(id) ==> r.is_none(),
    {
        self.handles.get(&id)
    }

    /// Takes the handle filed under `id` out of the table.
    pub fn remove_handle(&mut self, id: i32) -> (r: Option<SwipePredictorHandle>)
        requires
            old(self).wf(),
        ensures
            final(self).wf(),
            final(self).context == old(self).context,
            final(self).next_id == old(self).next_id,
            final(self).handles@ == old(self).handles@.remove(id),
            old(self).handles@.contains_key(id) ==> r == Some(old(self).handles@[id]),
            !old(self).handles@.contains_key(id) ==> r.is_none(),
    {
        self.handles.remove(&id)
    }

    /// Drops every handle and the registry, and starts ids again from 1.
    pub fn shutdown(&mut self)
        ensures
            final(self).wf(),
            final(self).context.is_none(),
            final(self).handles@ == Map::<i32, SwipePredictorHandle>::empty(),
            final(self).next_id == 1,
    {
        self.handles.clear();
        self.context = None;
        self.next_id = 1;
    }
}

} // verus!
