use vstd::prelude::*;

verus! {

/// Corner radius of the translucent background on macOS.
pub const VIBRANCY_CORNER_RADIUS: u32 = 12;

/// The material preset of a translucent window background.
#[derive(Clone, Copy, Debug, PartialEq, Eq, Structural)]
pub enum VibrancyMaterial {
    HudWindow,
}

/// A translucent background effect: a material and a corner radius, with no
/// tint override.
#[derive(Clone, Copy, Debug, PartialEq, Eq, Structural)]
pub struct Vibrancy {
    pub material: VibrancyMaterial,
    pub corner_radius: u32,
}

/// One mutation of the main window, requested from the runtime.
#[derive(Clone, Copy, Debug, PartialEq, Eq, Structural)]
pub enum WindowAction {
    /// Turn the native title bar and system controls on or off.
    SetDecorations(bool),
    /// Scale the web content, in percent.
    SetZoom(u32),
    /// Give the background a translucent effect.
    ApplyVibrancy(Vibrancy),
}

/// What a window reports of the settings this library touches.
#[derive(Clone, Copy, Debug, PartialEq, Eq, Structural)]
pub struct WindowState {
    pub decorations: bool,
    pub zoom_percent: u32,
    pub vibrancy: Option<Vibrancy>,
}

/// The window after one action has taken effect: each action overwrites the
/// setting it names and leaves the others alone.
pub open spec fn applied(w: WindowState, a: WindowAction) -> WindowState {
    match a {
        WindowAction::SetDecorations(on) => WindowState { decorations: on, ..w },
        WindowAction::SetZoom(z) => WindowState { zoom_percent: z, ..w },
        WindowAction::ApplyVibrancy(v) => WindowState { vibrancy: Some(v), ..w },
    }
}

/// The window after each action of `acts` has taken effect, first to last.
pub open spec fn applied_all(w: WindowState, acts: Seq<WindowAction>) -> WindowState
    decreases acts.len(),
{
    if acts.len() == 0 {
        w
    } else {
        applied_all(applied(w, acts[0]), acts.drop_first())
    }
}

/// The window after the same action has taken effect `n` times.
pub open spec fn applied_times(w: WindowState, a: WindowAction, n: nat) -> WindowState
    decreases n,
{
    if n == 0 {
        w
    } else {
        applied(applied_times(w, a, (n - 1) as nat), a)
    }
}

impl WindowState {
    /// Records that `action` took effect on this window.
    pub fn apply(&mut self, action: WindowAction)
        ensures
            *final(self) == applied(*old(self), action),
    {
        match action {
            WindowAction::SetDecorations(on) => {
                self.decorations = on;
            },
            WindowAction::SetZoom(z) => {
                self.zoom_percent = z;
            },
            WindowAction::ApplyVibrancy(v) => {
                self.vibrancy = Some(v);
            },
        }
    }

    /// Records that each action of `actions` took effect, first to last.
    pub fn apply_all(&mut self, actions: &Vec<WindowAction>)
        ensures
            *final(self) == applied_all(*old(self), actions@),
    {
        let ghost start = *self;
        let mut i: usize = 0;
        assert(actions@.subrange(0, actions@.len() as int) =~= actions@);
        while i < actions.len()
            invariant
                i <= actions@.len(),
                applied_all(start, actions@) == applied_all(*self, actions@.subrange(i as int, actions@.len() as int)),
            decreases actions.len() - i,
        {
            let ghost rest = actions@.subrange(i as int, actions@.len() as int);
            assert(rest.drop_first() =~= actions@.subrange(i + 1, actions@.len() as int));
            self.apply(actions[i]);
            i = i + 1;
        }
        assert(actions@.subrange(i as int, actions@.len() as int) =~= Seq::<WindowAction>::empty());
    }
}

} // verus!
