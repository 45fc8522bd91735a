//! The platform model: the process-wide state that the window system and the
//! graphics driver maintain, held as one explicit value.
//!
//! The real backend talks to the operating system; everything it decides is
//! decided here over plain data, so the protocol itself is verified. A
//! [`Platform`] value carries the window-class registration gate, the handle
//! allocators, the calling thread's message queue, the driver's capability
//! profile, and the thread's current context binding.

use vstd::prelude::*;

verus! {

/// First message code in the user range; codes below it are reserved for the
/// window system itself.
pub const USER_MESSAGE_BASE: u32 = 0x0400;

/// The custom close notification the window procedure re-posts to the thread
/// queue when the window system reports destruction.
pub const CLOSE_WINDOW_MESSAGE: u32 = USER_MESSAGE_BASE + 1;

/// The window-system message that announces a window is being destroyed.
pub const DESTROY_MESSAGE: u32 = 0x0002;

/// One message on the thread's queue: a message code and the word-sized
/// payload, which for the close notification carries the target window's
/// handle.
#[derive(Clone, Copy, PartialEq, Eq, Structural, Debug)]
pub struct ThreadMessage {
    pub message: u32,
    pub wparam: i32,
}

/// True of the one message that asks the window with the given handle to
/// close.
pub open spec fn is_close_for(m: ThreadMessage, handle: i32) -> bool {
    m.message == CLOSE_WINDOW_MESSAGE && m.wparam == handle
}

/// True when some message in the queue asks the window with the given handle
/// to close.
pub open spec fn close_requested(msgs: Seq<ThreadMessage>, handle: i32) -> bool {
    exists|i: int| 0 <= i < msgs.len() && is_close_for(msgs[i], handle)
}

/// The should-close flag after one pump that drained the given queue.
pub open spec fn pumped_flag(flag: bool, msgs: Seq<ThreadMessage>, handle: i32) -> bool {
    flag || close_requested(msgs, handle)
}

/// Whether one of the delivered messages is the close notification for this
/// window; the executable twin of [`is_close_for`], shared with the real
/// event pump.
pub fn message_closes(message: u32, wparam: i32, handle: i32) -> (r: bool)
    ensures
        r == is_close_for(ThreadMessage { message, wparam }, handle),
{
    message == CLOSE_WINDOW_MESSAGE && wparam == handle
}

/// True when some name in the table reads as the given one.
pub open spec fn has_name(names: Seq<String>, name: Seq<char>) -> bool {
    exists|i: int| 0 <= i < names.len() && names[i]@ == name
}

/// What the graphics driver of the platform supports: which steps of format
/// and context negotiation can succeed, the highest context version it can
/// create, and the two symbol tables that proc-address resolution consults
/// (the driver's own dynamic table, and the static table of the core library
/// module that serves as the fallback).
#[derive(Debug)]
pub struct DriverProfile {
    /// A basic pixel format can be chosen and set on a surface.
    pub basic_format_available: bool,
    /// A legacy context can be created and made current.
    pub legacy_context_available: bool,
    /// The extended, attribute-driven format chooser can satisfy a request.
    pub extended_format_available: bool,
    /// Highest context version the driver can create.
    pub max_major: u8,
    pub max_minor: u8,
    /// Names the driver's dynamic proc-address lookup resolves.
    pub wgl_procs: Vec<String>,
    /// Names the core library module exports (the baseline entry points).
    pub module_procs: Vec<String>,
}

/// The process-wide window-system and driver state.
#[derive(Debug)]
#[verifier::ext_equal]
pub struct Platform {
    /// The one window class, registered on first use and reused thereafter.
    pub class_registered: bool,
    /// Whether a display is present and can host new windows.
    pub display_available: bool,
    /// Next window handle to hand out; handles are positive and never reused.
    pub next_window_id: i32,
    /// Handles of the windows that exist and were not destroyed.
    pub open_windows: Vec<i32>,
    /// Next context handle to hand out; positive, never reused.
    pub next_context_id: i32,
    /// Handles of the contexts that exist and were not deleted.
    pub open_contexts: Vec<i32>,
    /// The calling thread's message queue, oldest first.
    pub messages: Vec<ThreadMessage>,
    /// The surface and context the thread currently renders to, if any.
    pub current: Option<(i32, i32)>,
    /// Frames presented so far by buffer swaps.
    pub frames_presented: u64,
    /// What the graphics driver supports.
    pub driver: DriverProfile,
}

impl Platform {
    /// Handles already handed out stay below the allocator cursors.
    pub open spec fn wf(self) -> bool {
        &&& 0 < self.next_window_id
        &&& 0 < self.next_context_id
        &&& forall|i: int|
            0 <= i < self.open_windows@.len() ==> 0 < #[trigger] self.open_windows@[i]
                < self.next_window_id
        &&& forall|i: int|
            0 <= i < self.open_contexts@.len() ==> 0 < #[trigger] self.open_contexts@[i]
                < self.next_context_id
    }

    /// The check-then-register gate for the process-wide window class:
    /// registers on first use, reuses the registration thereafter.
    pub fn ensure_class_registered(&mut self)
        ensures
            *final(self) == (Platform { class_registered: true, ..*old(self) }),
    {
        if !self.class_registered {
            self.class_registered = true;
        }
    }

    /// Asks the window system for a new window: hands out a fresh handle when
    /// a display is there and handles are not exhausted, and reports failure
    /// otherwise.
    pub(crate) fn create_window(&mut self) -> (r: Option<i32>)
        requires
            old(self).wf(),
        ensures
            final(self).wf(),
            r is Some <==> old(self).display_available && old(self).next_window_id < i32::MAX,
            match r {
                Some(h) => {
                    &&& h == old(self).next_window_id
                    &&& final(self).next_window_id == old(self).next_window_id + 1
                    &&& final(self).open_windows@ == old(self).open_windows@.push(h)
                    &&& *final(self) == (Platform {
                        next_window_id: final(self).next_window_id,
                        open_windows: final(self).open_windows,
                        ..*old(self)
                    })
                    &&& !old(self).open_windows@.contains(h)
                },
                None => *final(self) == *old(self),
            },
    {
        if self.display_available && self.next_window_id < i32::MAX {
            let h = self.next_window_id;
            self.next_window_id = self.next_window_id + 1;
            self.open_windows.push(h);
            Some(h)
        } else {
            None
        }
    }

    /// Asks the driver for a new context handle; fails only when handles are
    /// exhausted. Whether a given kind of context can be created at all is
    /// the capability profile's say, checked by the caller beforehand.
    pub(crate) fn create_context(&mut self) -> (r: Option<i32>)
        requires
            old(self).wf(),
        ensures
            final(self).wf(),
            r is Some <==> old(self).next_context_id < i32::MAX,
            match r {
                Some(c) => {
                    &&& c == old(self).next_context_id
                    &&& final(self).next_context_id == old(self).next_context_id + 1
                    &&& final(self).open_contexts@ == old(self).open_contexts@.push(c)
                    &&& *final(self) == (Platform {
                        next_context_id: final(self).next_context_id,
                        open_contexts: final(self).open_contexts,
                        ..*old(self)
                    })
                    &&& !old(self).open_contexts@.contains(c)
                },
                None => *final(self) == *old(self),
            },
    {
        if self.next_context_id < i32::MAX {
            let c = self.next_context_id;
            self.next_context_id = self.next_context_id + 1;
            self.open_contexts.push(c);
            Some(c)
        } else {
            None
        }
    }

    /// Deletes a context: its handle leaves the set of live contexts.
    pub(crate) fn delete_context(&mut self, context: i32)
        requires
            old(self).wf(),
        ensures
            final(self).wf(),
            final(self).open_contexts@ == old(self).open_contexts@.remove_value(context),
            *final(self) == (Platform { open_contexts: final(self).open_contexts, ..*old(self) }),
    {
        remove_handle(&mut self.open_contexts, context);
        proof {
            let s = old(self).open_contexts@;
            let t = self.open_contexts@;
            s.index_of_first_ensures(context);
            if let Some(idx) = s.index_of_first(context) {
                s.remove_ensures(idx);
                assert forall|i: int| 0 <= i < t.len() implies 0 < #[trigger] t[i]
                    < self.next_context_id by {
                    if i < idx {
                        assert(t[i] == s[i]);
                    } else {
                        assert(t[i] == s[i + 1]);
                    }
                };
            }
        }
    }

    /// Binds, or with `None` unbinds, the thread's current surface and
    /// context pair.
    pub(crate) fn set_current(&mut self, binding: Option<(i32, i32)>)
        ensures
            *final(self) == (Platform { current: binding, ..*old(self) }),
    {
        self.current = binding;
    }
}

/// The window procedure, as the window system calls it for every delivered
/// message. The destroy notification cannot safely flip application state
/// from inside dispatch, so it is answered by re-posting the custom close
/// message, tagged with the window's handle, onto the same thread's queue;
/// every other message gets default handling, which leaves the model state
/// unchanged.
pub fn window_callback(platform: &mut Platform, handle: i32, message: u32, _wparam: i32, _lparam: i32) -> (r: i32)
    ensures
        message == DESTROY_MESSAGE ==> *final(platform) == (Platform {
            messages: final(platform).messages,
            ..*old(platform)
        }) && final(platform).messages@ == old(platform).messages@.push(
            ThreadMessage { message: CLOSE_WINDOW_MESSAGE, wparam: handle },
        ),
        message != DESTROY_MESSAGE ==> *final(platform) == *old(platform),
        r == 0,
{
    if message == DESTROY_MESSAGE {
        platform.messages.push(ThreadMessage { message: CLOSE_WINDOW_MESSAGE, wparam: handle });
        0
    } else {
        // default processing
        0
    }
}

/// Removes the first occurrence of a handle from a list, leaving the list as
/// it was when the handle is absent.
pub(crate) fn remove_handle(handles: &mut Vec<i32>, handle: i32) -> (removed: bool)
    ensures
        final(handles)@ == old(handles)@.remove_value(handle),
        removed == old(handles)@.contains(handle),
{
    let mut i: usize = 0;
    while i < handles.len()
        invariant
            0 <= i <= handles@.len(),
            *handles == *old(handles),
            forall|j: int| 0 <= j < i ==> handles@[j] != handle,
        decreases handles@.len() - i,
    {
        if handles[i] == handle {
            proof {
                handles@.index_of_first_ensures(handle);
                assert(handles@.contains(handle));
                let first = handles@.index_of_first(handle).unwrap();
                assert(first == i as int) by {
                    assert(handles@[i as int] == handle);
                    assert(forall|j: int| 0 <= j < i ==> handles@[j] != handle);
                };
            }
            handles.remove(i);
            return true;
        }
        i = i + 1;
    }
    proof {
        assert(!handles@.contains(handle));
        handles@.index_of_first_ensures(handle);
    }
    false
}

/// A handle that was never in a list leaves the list unchanged when it is
/// pushed and then removed again.
pub(crate) proof fn lemma_push_then_remove_value(s: Seq<i32>, v: i32)
    requires
        !s.contains(v),
    ensures
        s.push(v).remove_value(v) == s,
{
    let t = s.push(v);
    t.index_of_first_ensures(v);
    assert(t[s.len() as int] == v);
    assert(t.contains(v));
    let first = t.index_of_first(v).unwrap();
    assert(forall|j: int| 0 <= j < s.len() ==> t[j] == s[j]);
    assert(first == s.len() as int) by {
        if first < s.len() {
            assert(t[first] == s[first]);
            assert(s.contains(v));
        }
    };
    assert(t.remove(s.len() as int) =~= s);
}

/// Membership of a symbol name in a resolution table.
pub fn contains_name(names: &Vec<String>, name: &str) -> (r: bool)
    ensures
        r == has_name(names@, name@),
{
    let key: String = name.to_owned();
    let mut i: usize = 0;
    while i < names.len()
        invariant
            0 <= i <= names@.len(),
            key@ == name@,
            forall|j: int| 0 <= j < i ==> names@[j]@ != name@,
        decreases names@.len() - i,
    {
        if names[i] == key {
            assert(names@[i as int]@ == name@);
            return true;
        }
        i = i + 1;
    }
    false
}

} // verus!
