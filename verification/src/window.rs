//! Native windows: creation options, the fluent builder, and the window
//! object with its polled should-close flag.

use vstd::prelude::*;

use crate::platform::{
    close_requested, is_close_for, message_closes, pumped_flag, window_callback, Platform,
    ThreadMessage, DESTROY_MESSAGE,
};

verus! {

/// Why a window could not be created: the display cannot host one, or the
/// window system is out of handles.
#[derive(Clone, Copy, PartialEq, Eq, Structural, Debug)]
pub enum WindowError {
    CreationFailed,
}

/// A native window: the exclusively owned handle and the polled should-close
/// flag. The flag flips from false to true at most once, and only from
/// [`Window::handle_events`]; destroying the window consumes it, so no
/// operation can follow destruction.
#[derive(Debug)]
pub struct Window {
    pub handle: i32,
    pub should_close: bool,
}

impl Window {
    /// Creates a visible top-level window of the requested size and title.
    /// The window class is registered first if no prior registration exists.
    /// Succeeds exactly when a display is available and window handles are
    /// not exhausted; the new window has a fresh handle and its should-close
    /// flag clear.
    pub fn new(platform: &mut Platform, attributes: WindowAttributes) -> (r: Result<
        Window,
        WindowError,
    >)
        requires
            old(platform).wf(),
        ensures
            final(platform).wf(),
            final(platform).class_registered,
            r is Ok <==> old(platform).display_available && old(platform).next_window_id
                < i32::MAX,
            match r {
                Ok(w) => {
                    &&& w.handle == old(platform).next_window_id
                    &&& w.should_close == false
                    &&& !old(platform).open_windows@.contains(w.handle)
                    &&& final(platform).next_window_id == old(platform).next_window_id + 1
                    &&& final(platform).open_windows@ == old(platform).open_windows@.push(w.handle)
                    &&& *final(platform) == (Platform {
                        class_registered: true,
                        next_window_id: final(platform).next_window_id,
                        open_windows: final(platform).open_windows,
                        ..*old(platform)
                    })
                },
                Err(e) => {
                    &&& e == WindowError::CreationFailed
                    &&& *final(platform) == (Platform {
                        class_registered: true,
                        ..*old(platform)
                    })
                },
            },
    {
        platform.ensure_class_registered();
        match platform.create_window() {
            Some(handle) => Ok(Window { handle, should_close: false }),
            None => Err(WindowError::CreationFailed),
        }
    }

    /// Drains every pending message from the thread queue without blocking.
    /// The should-close flag is set exactly when it already was, or when some
    /// drained message is the close notification carrying this window's
    /// handle; every message is handed on to default processing regardless.
    pub fn handle_events(&mut self, platform: &mut Platform)
        ensures
            final(self).handle == old(self).handle,
            final(self).should_close == pumped_flag(
                old(self).should_close,
                old(platform).messages@,
                old(self).handle,
            ),
            final(platform).messages@ == Seq::<ThreadMessage>::empty(),
            *final(platform) == (Platform {
                messages: final(platform).messages,
                ..*old(platform)
            }),
    {
        let mut i: usize = 0;
        while i < platform.messages.len()
            invariant
                0 <= i <= platform.messages@.len(),
                *platform == *old(platform),
                self.handle == old(self).handle,
                self.should_close == pumped_flag(
                    old(self).should_close,
                    old(platform).messages@.take(i as int),
                    old(self).handle,
                ),
            decreases platform.messages@.len() - i,
        {
            let m = platform.messages[i];
            proof {
                assert(old(platform).messages@.take(i + 1) =~= old(platform).messages@.take(
                    i as int,
                ).push(m));
                lemma_close_requested_push(
                    old(platform).messages@.take(i as int),
                    m,
                    old(self).handle,
                );
            }
            if message_closes(m.message, m.wparam, self.handle) {
                self.should_close = true;
            }
            // translate and dispatch: default processing, no model effect
            i = i + 1;
        }
        proof {
            assert(old(platform).messages@.take(old(platform).messages@.len() as int)
                =~= old(platform).messages@);
        }
        platform.messages.clear();
    }

    /// The window's handle.
    pub fn get_id(&self) -> (r: i32)
        ensures
            r == self.handle,
    {
        self.handle
    }

    /// Pure read of the polled should-close flag.
    pub fn get_should_close(&self) -> (r: bool)
        ensures
            r == self.should_close,
    {
        self.should_close
    }

    /// Destroys the window, consuming it. The handle leaves the set of live
    /// windows, and — because the window system delivers the destroy
    /// notification to the window procedure during destruction — the close
    /// message for this handle lands on the thread queue.
    pub fn destroy(self, platform: &mut Platform)
        requires
            old(platform).wf(),
        ensures
            final(platform).wf(),
            final(platform).open_windows@ == old(platform).open_windows@.remove_value(self.handle),
            final(platform).messages@ == old(platform).messages@.push(
                ThreadMessage {
                    message: crate::platform::CLOSE_WINDOW_MESSAGE,
                    wparam: self.handle,
                },
            ),
            *final(platform) == (Platform {
                open_windows: final(platform).open_windows,
                messages: final(platform).messages,
                ..*old(platform)
            }),
    {
        crate::platform::remove_handle(&mut platform.open_windows, self.handle);
        proof {
            let s = old(platform).open_windows@;
            let t = platform.open_windows@;
            s.index_of_first_ensures(self.handle);
            if let Some(idx) = s.index_of_first(self.handle) {
                s.remove_ensures(idx);
                assert forall|i: int| 0 <= i < t.len() implies 0 < #[trigger] t[i]
                    < platform.next_window_id by {
                    if i < idx {
                        assert(t[i] == s[i]);
                    } else {
                        assert(t[i] == s[i + 1]);
                    }
                };
            }
        }
        window_callback(platform, self.handle, DESTROY_MESSAGE, 0, 0);
    }
}

/// Extending a drained queue by one message asks for a close exactly when the
/// queue already did, or the new message does.
proof fn lemma_close_requested_push(msgs: Seq<ThreadMessage>, m: ThreadMessage, handle: i32)
    ensures
        close_requested(msgs.push(m), handle) == (close_requested(msgs, handle) || is_close_for(
            m,
            handle,
        )),
{
    let t = msgs.push(m);
    if close_requested(msgs, handle) {
        let i = choose|i: int| 0 <= i < msgs.len() && is_close_for(msgs[i], handle);
        assert(t[i] == msgs[i]);
        assert(close_requested(t, handle));
    }
    if is_close_for(m, handle) {
        assert(t[msgs.len() as int] == m);
        assert(close_requested(t, handle));
    }
    if close_requested(t, handle) {
        let i = choose|i: int| 0 <= i < t.len() && is_close_for(t[i], handle);
        if i < msgs.len() {
            assert(msgs[i] == t[i]);
            assert(close_requested(msgs, handle));
        } else {
            assert(t[i] == m);
        }
    }
}

/// Once a pump has observed a close request, the flag is true and every later
/// pump leaves it true: the close-requested state is terminal.
pub proof fn lemma_close_is_terminal(
    flag: bool,
    first: Seq<ThreadMessage>,
    later: Seq<ThreadMessage>,
    handle: i32,
)
    requires
        flag || close_requested(first, handle),
    ensures
        pumped_flag(flag, first, handle),
        pumped_flag(pumped_flag(flag, first, handle), later, handle),
{
}

/// Creation options for a window: a title and a size in device pixels.
/// An immutable snapshot, read once at creation time.
#[derive(Debug)]
pub struct WindowAttributes {
    pub title: String,
    pub size: (i32, i32),
}

impl Default for WindowAttributes {
    /// The fixed placeholder title and an 800 by 600 surface.
    fn default() -> (r: Self)
        ensures
            r.title@ == "Triforce Window"@,
            r.size == ((800i32, 600i32)),
    {
        WindowAttributes { title: "Triforce Window".to_owned(), size: (800, 600) }
    }
}

/// Fluent builder over [`WindowAttributes`].
#[derive(Debug)]
pub struct WindowBuilder {
    pub attributes: WindowAttributes,
}

impl Default for WindowBuilder {
    fn default() -> (r: Self)
        ensures
            r.attributes.title@ == "Triforce Window"@,
            r.attributes.size == ((800i32, 600i32)),
    {
        WindowBuilder { attributes: Default::default() }
    }
}

impl WindowBuilder {
    /// A builder holding the default attributes.
    pub fn new() -> (r: Self)
        ensures
            r.attributes.title@ == "Triforce Window"@,
            r.attributes.size == ((800i32, 600i32)),
    {
        Default::default()
    }

    /// Replaces the title, leaving the size as it was.
    pub fn with_title(self, title: &str) -> (r: Self)
        ensures
            r.attributes.title@ == title@,
            r.attributes.size == self.attributes.size,
    {
        WindowBuilder {
            attributes: WindowAttributes { title: title.to_owned(), ..self.attributes },
        }
    }

    /// Replaces the size, leaving the title as it was.
    pub fn with_size(self, size: (i32, i32)) -> (r: Self)
        ensures
            r.attributes.size == size,
            r.attributes.title@ == self.attributes.title@,
    {
        WindowBuilder { attributes: WindowAttributes { size, ..self.attributes } }
    }

    /// Creates the window the accumulated attributes describe. Whatever the
    /// title and size, creation succeeds exactly when the platform can host
    /// another window, and a window just built has its should-close flag
    /// clear.
    pub fn build(self, platform: &mut Platform) -> (r: Result<Window, WindowError>)
        requires
            old(platform).wf(),
        ensures
            final(platform).wf(),
            final(platform).class_registered,
            r is Ok <==> old(platform).display_available && old(platform).next_window_id
                < i32::MAX,
            match r {
                Ok(w) => {
                    &&& w.handle == old(platform).next_window_id
                    &&& w.should_close == false
                    &&& !old(platform).open_windows@.contains(w.handle)
                    &&& final(platform).next_window_id == old(platform).next_window_id + 1
                    &&& final(platform).open_windows@ == old(platform).open_windows@.push(w.handle)
                    &&& *final(platform) == (Platform {
                        class_registered: true,
                        next_window_id: final(platform).next_window_id,
                        open_windows: final(platform).open_windows,
                        ..*old(platform)
                    })
                },
                Err(e) => {
                    &&& e == WindowError::CreationFailed
                    &&& *final(platform) == (Platform {
                        class_registered: true,
                        ..*old(platform)
                    })
                },
            },
    {
        Window::new(platform, self.attributes)
    }
}

} // verus!
