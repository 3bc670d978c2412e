//! Where the cursor cage goes: resolving a target to a clip rectangle, and the
//! state of the background clip loop.
//!
//! The operating-system calls (reading a window's frame, clipping the cursor)
//! happen outside this module; what they report arrives as a [`WindowProbe`],
//! and what should be done comes back as a rectangle or a [`ClipAction`].

use crate::geometry::{fits_i32, ScreenRect};
use crate::text::{i32_to_string, int_repr, nat_repr, u64_to_string};
use vstd::prelude::*;

verus! {

/// Why a cage could not be applied.
#[derive(Debug, Clone, Copy, PartialEq, Eq, Structural)]
pub enum ConfineError {
    /// The resolved rectangle has no positive extent.
    InvalidRect(ScreenRect),
    /// Clipping or reading the window failed with this Win32 error code.
    Win32(u32),
    /// The target window is gone or hidden.
    NoHandle,
}

/// The `{:?}` form of a rectangle.
pub open spec fn rect_debug(r: ScreenRect) -> Seq<char> {
    "ScreenRect { left: "@ + int_repr(r.left as int) + ", top: "@ + int_repr(r.top as int)
        + ", right: "@ + int_repr(r.right as int) + ", bottom: "@ + int_repr(r.bottom as int)
        + " }"@
}

/// The message shown for an error.
pub open spec fn error_message(e: ConfineError) -> Seq<char> {
    match e {
        ConfineError::InvalidRect(r) => "invalid rect: "@ + rect_debug(r),
        ConfineError::Win32(code) => "ClipCursor failed with Win32 error code "@ + nat_repr(
            code as nat,
        ),
        ConfineError::NoHandle => "window handle not available"@,
    }
}

impl ConfineError {
    /// The human-readable description of the error.
    pub fn message(&self) -> (s: String)
        ensures
            s@ == error_message(*self),
    {
        match self {
            ConfineError::InvalidRect(r) => {
                let mut s = String::from_str("invalid rect: ScreenRect { left: ");
                s.append(i32_to_string(r.left).as_str());
                s.append(", top: ");
                s.append(i32_to_string(r.top).as_str());
                s.append(", right: ");
                s.append(i32_to_string(r.right).as_str());
                s.append(", bottom: ");
                s.append(i32_to_string(r.bottom).as_str());
                s.append(" }");
                proof {
                    reveal_strlit("invalid rect: ScreenRect { left: ");
                    reveal_strlit("invalid rect: ");
                    reveal_strlit("ScreenRect { left: ");
                }
                assert(s@ =~= error_message(*self));
                s
            },
            ConfineError::Win32(code) => {
                let s = String::from_str("ClipCursor failed with Win32 error code ").concat(
                    u64_to_string(*code as u64).as_str(),
                );
                s
            },
            ConfineError::NoHandle => String::from_str("window handle not available"),
        }
    }
}

/// The target of a cage: a live window (by handle) or a fixed rectangle.
#[derive(Debug, Clone, Copy, PartialEq, Eq, Structural)]
pub enum CageMode {
    Window { hwnd: isize },
    Fixed(ScreenRect),
}

/// What the operating system reported about a target window.
#[derive(Debug, Clone, Copy)]
pub struct WindowProbe {
    /// The handle names an existing window.
    pub is_window: bool,
    /// The window is visible.
    pub is_visible: bool,
    /// The window is minimized.
    pub is_iconic: bool,
    /// The compositor's extended frame bounds, when that query succeeded.
    pub frame: Option<ScreenRect>,
    /// The plain window rectangle, or the Win32 error code of that query.
    pub window_rect: Result<ScreenRect, u32>,
}

impl WindowProbe {
    /// The probe of a window that does not exist.
    pub fn missing() -> (p: WindowProbe)
        ensures
            !p.is_window,
            !p.is_visible,
            !p.is_iconic,
            p.frame is None,
            p.window_rect == Err::<ScreenRect, u32>(0),
    {
        WindowProbe {
            is_window: false,
            is_visible: false,
            is_iconic: false,
            frame: None,
            window_rect: Err(0),
        }
    }
}

/// The rectangle of a window as the probe describes it: the compositor's frame
/// when it has positive extent, else the plain window rectangle.
pub open spec fn spec_read_window_rect(hwnd: isize, p: WindowProbe) -> Result<ScreenRect, ConfineError> {
    if hwnd == 0 || !p.is_window || !p.is_visible {
        Err(ConfineError::NoHandle)
    } else if p.is_iconic {
        Err(ConfineError::InvalidRect(ScreenRect { left: 0, top: 0, right: 0, bottom: 0 }))
    } else {
        let chosen = match p.frame {
            Some(f) => if f.right > f.left && f.bottom > f.top {
                Ok(f)
            } else {
                p.window_rect
            },
            None => p.window_rect,
        };
        match chosen {
            Ok(r) => if r.spec_is_valid() {
                Ok(r)
            } else {
                Err(ConfineError::InvalidRect(r))
            },
            Err(code) => Err(ConfineError::Win32(code)),
        }
    }
}

/// The rectangle of window `hwnd`, given what the system reported about it.
pub fn read_window_rect(hwnd: isize, probe: &WindowProbe) -> (r: Result<ScreenRect, ConfineError>)
    ensures
        r == spec_read_window_rect(hwnd, *probe),
{
    if hwnd == 0 || !probe.is_window || !probe.is_visible {
        return Err(ConfineError::NoHandle);
    }
    if probe.is_iconic {
        return Err(ConfineError::InvalidRect(ScreenRect::new(0, 0, 0, 0)));
    }
    let chosen = match probe.frame {
        Some(f) => if f.right > f.left && f.bottom > f.top {
            Ok(f)
        } else {
            probe.window_rect
        },
        None => probe.window_rect,
    };
    match chosen {
        Ok(r) => if r.is_valid() {
            Ok(r)
        } else {
            Err(ConfineError::InvalidRect(r))
        },
        Err(code) => Err(ConfineError::Win32(code)),
    }
}

/// The rectangle a mode names before padding.
pub open spec fn base_rect(mode: CageMode, p: WindowProbe) -> Result<ScreenRect, ConfineError> {
    match mode {
        CageMode::Window { hwnd } => spec_read_window_rect(hwnd, p),
        CageMode::Fixed(r) => Ok(r),
    }
}

/// Whether padding `padding` can be applied to the base rectangle without
/// leaving the `i32` range.
pub open spec fn padding_fits(mode: CageMode, padding: i32, p: WindowProbe) -> bool {
    match base_rect(mode, p) {
        Ok(b) => b.inset_fits(padding as int),
        Err(_) => true,
    }
}

/// The clip rectangle of a mode: its base rectangle moved inwards by
/// `padding` on every side, which must keep positive extent.
pub open spec fn spec_resolve_rect(mode: CageMode, padding: i32, p: WindowProbe) -> Result<
    ScreenRect,
    ConfineError,
> {
    match base_rect(mode, p) {
        Ok(b) => {
            let r = b.spec_inset(padding as int);
            if r.spec_is_valid() {
                Ok(r)
            } else {
                Err(ConfineError::InvalidRect(r))
            }
        },
        Err(e) => Err(e),
    }
}

/// Whether `resolve_rect` may be called: the padded rectangle stays in the `i32` range.
pub fn resolve_fits(mode: CageMode, padding: i32, probe: &WindowProbe) -> (b: bool)
    ensures
        b == padding_fits(mode, padding, *probe),
{
    let base = match mode {
        CageMode::Window { hwnd } => read_window_rect(hwnd, probe),
        CageMode::Fixed(r) => Ok(r),
    };
    match base {
        Ok(b) => b.can_inset(padding),
        Err(_) => true,
    }
}

/// The rectangle the cursor is confined to for `mode` with `padding`.
pub fn resolve_rect(mode: CageMode, padding: i32, probe: &WindowProbe) -> (r: Result<
    ScreenRect,
    ConfineError,
>)
    requires
        padding_fits(mode, padding, *probe),
    ensures
        r == spec_resolve_rect(mode, padding, *probe),
        r matches Ok(rect) ==> rect.spec_is_valid(),
{
    let base = match mode {
        CageMode::Window { hwnd } => read_window_rect(hwnd, probe)?,
        CageMode::Fixed(rect) => rect,
    };
    let rect = if padding == 0 {
        base
    } else {
        base.inset(padding)
    };
    assert(padding == 0 ==> base.spec_inset(0) == base);
    if !rect.is_valid() {
        return Err(ConfineError::InvalidRect(rect));
    }
    Ok(rect)
}

/// The check made before clipping: only a rectangle with positive extent is used.
pub fn clip_target(rect: ScreenRect) -> (r: Result<ScreenRect, ConfineError>)
    ensures
        r == (if rect.spec_is_valid() {
            Ok(rect)
        } else {
            Err(ConfineError::InvalidRect(rect))
        }),
{
    if !rect.is_valid() {
        return Err(ConfineError::InvalidRect(rect));
    }
    Ok(rect)
}

// ---------------------------------------------------------------------------
// The clip loop's shared state
// ---------------------------------------------------------------------------

/// What one pass of the background loop does to the cursor clip.
#[derive(Debug, Clone, Copy, PartialEq, Eq, Structural)]
pub enum ClipAction {
    /// Clip the cursor to this rectangle.
    Apply(ScreenRect),
    /// Release the cursor.
    Release,
    /// Leave the clip as it is.
    Keep,
}

/// The state shared between the controller and its background loop.
#[derive(Debug, Clone)]
pub struct ClipState {
    pub active: bool,
    pub mode: Option<CageMode>,
    pub padding: i32,
    pub auto_release_reason: Option<String>,
}

/// The mathematical content of [`ClipState`].
pub struct ClipStateView {
    pub active: bool,
    pub mode: Option<CageMode>,
    pub padding: i32,
    pub auto_release_reason: Option<Seq<char>>,
}

impl View for ClipState {
    type V = ClipStateView;

    open spec fn view(&self) -> ClipStateView {
        ClipStateView {
            active: self.active,
            mode: self.mode,
            padding: self.padding,
            auto_release_reason: match self.auto_release_reason {
                Some(s) => Some(s@),
                None => None,
            },
        }
    }
}

/// The reason recorded when a window target disappears.
pub open spec fn window_closed_reason() -> Seq<char> {
    "target window closed"@
}

/// The state and action of one pass of the background loop.
pub open spec fn spec_tick(s: ClipStateView, p: WindowProbe) -> (ClipStateView, ClipAction) {
    if s.active && s.mode is Some {
        match spec_resolve_rect(s.mode->0, s.padding, p) {
            Ok(r) => (s, ClipAction::Apply(r)),
            Err(ConfineError::NoHandle) => (
                ClipStateView { active: false, auto_release_reason: Some(window_closed_reason()), ..s },
                ClipAction::Release,
            ),
            Err(_) => (s, ClipAction::Keep),
        }
    } else {
        (s, ClipAction::Keep)
    }
}

impl ClipState {
    /// Inactive, with no target and no padding.
    pub fn new() -> (s: ClipState)
        ensures
            !s.active,
            s.mode is None,
            s.padding == 0,
            s.auto_release_reason is None,
    {
        ClipState { active: false, mode: None, padding: 0, auto_release_reason: None }
    }

    /// Starts confining to `mode` with `padding`. On success the state is
    /// active with that target and the returned rectangle is the one to clip
    /// to; on failure nothing changes.
    pub fn activate(&mut self, mode: CageMode, padding: i32, probe: &WindowProbe) -> (r: Result<
        ScreenRect,
        ConfineError,
    >)
        requires
            padding_fits(mode, padding, *probe),
        ensures
            r == spec_resolve_rect(mode, padding, *probe),
            r is Ok ==> final(self)@ == (ClipStateView {
                active: true,
                mode: Some(mode),
                padding,
                auto_release_reason: None,
            }),
            r is Err ==> final(self)@ == old(self)@,
    {
        let rect = resolve_rect(mode, padding, probe)?;
        self.active = true;
        self.mode = Some(mode);
        self.padding = padding;
        self.auto_release_reason = None;
        Ok(rect)
    }

    /// Stops confining; the cursor is then released.
    pub fn deactivate(&mut self)
        ensures
            final(self)@ == (ClipStateView {
                active: false,
                auto_release_reason: None,
                ..old(self)@
            }),
    {
        self.active = false;
        self.auto_release_reason = None;
    }

    /// Hands out, once, the reason the loop released the cage on its own.
    pub fn take_auto_release(&mut self) -> (r: Option<String>)
        ensures
            r matches Some(s) ==> old(self)@.auto_release_reason == Some(s@),
            r is None ==> old(self)@.auto_release_reason is None,
            final(self)@ == (ClipStateView { auto_release_reason: None, ..old(self)@ }),
    {
        self.auto_release_reason.take()
    }

    /// Retargets the cage. While active the new target must resolve; the
    /// returned rectangle is then the one to clip to. While inactive the
    /// target is only recorded.
    pub fn set_mode(&mut self, mode: CageMode, probe: &WindowProbe) -> (r: Result<
        Option<ScreenRect>,
        ConfineError,
    >)
        requires
            old(self).active ==> padding_fits(mode, old(self).padding, *probe),
        ensures
            old(self).active ==> match spec_resolve_rect(mode, old(self).padding, *probe) {
                Ok(rect) => r == Ok::<Option<ScreenRect>, ConfineError>(Some(rect)) && final(self)@
                    == (ClipStateView { mode: Some(mode), ..old(self)@ }),
                Err(e) => r == Err::<Option<ScreenRect>, ConfineError>(e) && final(self)@ == old(
                    self,
                )@,
            },
            !old(self).active ==> r == Ok::<Option<ScreenRect>, ConfineError>(None) && final(self)@
                == (ClipStateView { mode: Some(mode), ..old(self)@ }),
    {
        if self.active {
            let rect = resolve_rect(mode, self.padding, probe)?;
            self.mode = Some(mode);
            Ok(Some(rect))
        } else {
            self.mode = Some(mode);
            Ok(None)
        }
    }

    /// Changes the padding. While active with a target, the new padding must
    /// resolve; the returned rectangle is then the one to clip to. Otherwise
    /// the padding is only recorded.
    pub fn set_padding(&mut self, padding: i32, probe: &WindowProbe) -> (r: Result<
        Option<ScreenRect>,
        ConfineError,
    >)
        requires
            old(self).active && old(self).mode is Some ==> padding_fits(
                old(self).mode->0,
                padding,
                *probe,
            ),
        ensures
            old(self).active && old(self).mode is Some ==> match spec_resolve_rect(
                old(self).mode->0,
                padding,
                *probe,
            ) {
                Ok(rect) => r == Ok::<Option<ScreenRect>, ConfineError>(Some(rect)) && final(self)@
                    == (ClipStateView { padding, ..old(self)@ }),
                Err(e) => r == Err::<Option<ScreenRect>, ConfineError>(e) && final(self)@ == old(
                    self,
                )@,
            },
            !(old(self).active && old(self).mode is Some) ==> r == Ok::<
                Option<ScreenRect>,
                ConfineError,
            >(None) && final(self)@ == (ClipStateView { padding, ..old(self)@ }),
    {
        if self.active {
            if let Some(mode) = self.mode {
                let rect = resolve_rect(mode, padding, probe)?;
                self.padding = padding;
                return Ok(Some(rect));
            }
        }
        self.padding = padding;
        Ok(None)
    }

    /// One pass of the background loop: keep re-applying the cage while it
    /// resolves, drop it with a reason when the target window is gone, and
    /// leave the last clip in place on any other failure.
    pub fn tick(&mut self, probe: &WindowProbe) -> (a: ClipAction)
        requires
            old(self).active && old(self).mode is Some ==> padding_fits(
                old(self).mode->0,
                old(self).padding,
                *probe,
            ),
        ensures
            (final(self)@, a) == spec_tick(old(self)@, *probe),
    {
        if self.active {
            if let Some(mode) = self.mode {
                match resolve_rect(mode, self.padding, probe) {
                    Ok(rect) => {
                        return ClipAction::Apply(rect);
                    },
                    Err(ConfineError::NoHandle) => {
                        self.active = false;
                        self.auto_release_reason = Some(String::from_str("target window closed"));
                        return ClipAction::Release;
                    },
                    Err(_) => {
                        return ClipAction::Keep;
                    },
                }
            }
        }
        ClipAction::Keep
    }

    /// Whether the next `tick` may be called with `probe`.
    pub fn tick_fits(&self, probe: &WindowProbe) -> (b: bool)
        ensures
            b == (self.active && self.mode is Some ==> padding_fits(
                self.mode->0,
                self.padding,
                *probe,
            )),
    {
        match self.mode {
            Some(m) => !self.active || resolve_fits(m, self.padding, probe),
            None => true,
        }
    }
}

} // verus!
