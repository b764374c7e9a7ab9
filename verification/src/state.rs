//! The Window Render State and its resource lifecycle.
//!
//! One instance exists per live window. It owns the identities of the five
//! graphics objects (drawing factory, text-layout factory, text format,
//! render target, solid brush) as plain handles; the shell that talks to the
//! platform creates and releases the objects themselves and is told here, in
//! contracts, exactly which to create and which to release, in which order.

use crate::messages::HR_RECREATE_TARGET;
use crate::wide::{lemma_wide_of_len, to_wide, wide_of};
use vstd::prelude::*;

verus! {

/// The string this window renders.
pub open spec fn spec_greeting() -> Seq<char> {
    "Hello World using DirectWrite!"@
}

/// The string this window renders.
pub fn greeting() -> (s: &'static str)
    ensures
        s@ == spec_greeting(),
{
    "Hello World using DirectWrite!"
}

/// The lifecycle states of a window, in the order they are normally passed
/// through.
#[derive(Clone, Copy, PartialEq, Eq, Structural, Debug)]
pub enum Phase {
    /// The window exists but no graphics resources do.
    Uninitialized,
    /// Factories and text format exist; the render target does not (yet, or
    /// any more).
    Ready,
    /// Render target and brush additionally exist: a frame can be drawn.
    Rendering,
    /// The window was destroyed; terminal.
    Destroyed,
}

/// The mathematical value of a [`SimpleText`]: every resource slot as the
/// handle it holds, if any.
#[verifier::ext_equal]
pub ghost struct StateView {
    pub hwnd: u64,
    pub wtext: Seq<u16>,
    pub wtext_length: u32,
    pub d2d1_factory: Option<u64>,
    pub dwrite_factory: Option<u64>,
    pub text_format: Option<u64>,
    pub render_target: Option<u64>,
    pub brush: Option<u64>,
    pub destroyed: bool,
}

/// The sequence an optional handle contributes to a release: one element if
/// present, none if not. Used to state which handles a teardown hands back,
/// and in what order.
pub open spec fn opt_handle(o: Option<u64>) -> Seq<u64> {
    match o {
        Option::Some(h) => seq![h],
        Option::None => Seq::empty(),
    }
}

impl StateView {
    /// A fresh state: no window, no text, no resources.
    pub open spec fn fresh() -> StateView {
        StateView {
            hwnd: 0,
            wtext: Seq::empty(),
            wtext_length: 0,
            d2d1_factory: None,
            dwrite_factory: None,
            text_format: None,
            render_target: None,
            brush: None,
            destroyed: false,
        }
    }

    /// No graphics resource is held.
    pub open spec fn resources_empty(self) -> bool {
        &&& self.d2d1_factory is None
        &&& self.dwrite_factory is None
        &&& self.text_format is None
        &&& self.render_target is None
        &&& self.brush is None
    }

    /// Well-formedness, preserved by every transition:
    /// brush and render target live and die together; each derived object
    /// implies its factory; a destroyed state holds nothing; and the stored
    /// length counts the text's code units, the terminating nul excluded.
    pub open spec fn inv(self) -> bool {
        &&& (self.brush is Some <==> self.render_target is Some)
        &&& (self.render_target is Some ==> self.d2d1_factory is Some)
        &&& (self.text_format is Some ==> self.dwrite_factory is Some)
        &&& (self.destroyed ==> self.resources_empty())
        &&& (self.wtext.len() == 0 ==> self.wtext_length == 0)
        &&& (self.wtext.len() > 0 ==> self.wtext_length + 1 == self.wtext.len()
            && self.wtext.last() == 0)
    }

    /// The lifecycle state this value is in.
    pub open spec fn phase(self) -> Phase {
        if self.destroyed {
            Phase::Destroyed
        } else if self.dwrite_factory is Some && self.text_format is Some
            && self.render_target is Some && self.brush is Some {
            Phase::Rendering
        } else if self.dwrite_factory is Some && self.text_format is Some {
            Phase::Ready
        } else {
            Phase::Uninitialized
        }
    }

    /// A frame can be drawn: target, brush and text format all present.
    pub open spec fn can_paint(self) -> bool {
        &&& self.render_target is Some
        &&& self.brush is Some
        &&& self.text_format is Some
        &&& !self.destroyed
    }

    /// Factory installation: stores the two factory handles as they were
    /// obtained (either may be absent after a failed creation) and fixes the
    /// text buffer and its length.
    pub open spec fn install_factories(self, d2d1: Option<u64>, dwrite: Option<u64>) -> StateView {
        StateView {
            wtext: wide_of(spec_greeting()).push(0u16),
            wtext_length: wide_of(spec_greeting()).len() as u32,
            d2d1_factory: d2d1,
            dwrite_factory: dwrite,
            ..self
        }
    }

    /// Text-format installation: stores the format handle.
    pub open spec fn install_format(self, format: u64) -> StateView {
        StateView { text_format: Some(format), ..self }
    }

    /// Render-target installation: target and brush are stored together.
    pub open spec fn install_target(self, target: u64, brush: u64) -> StateView {
        StateView { render_target: Some(target), brush: Some(brush), ..self }
    }

    /// Target teardown: brush and render target are cleared together.
    pub open spec fn release_target(self) -> StateView {
        StateView { render_target: None, brush: None, ..self }
    }

    /// Full teardown: every resource slot cleared.
    pub open spec fn release_all(self) -> StateView {
        StateView {
            d2d1_factory: None,
            dwrite_factory: None,
            text_format: None,
            render_target: None,
            brush: None,
            ..self
        }
    }

    /// The destroy transition: full teardown, then terminal.
    pub open spec fn destroy(self) -> StateView {
        StateView { destroyed: true, ..self.release_all() }
    }

    /// The handles a target teardown hands back for release: the dependent
    /// brush strictly before the render target it depends on.
    pub open spec fn target_handles(self) -> Seq<u64> {
        opt_handle(self.brush) + opt_handle(self.render_target)
    }

    /// The handles a full teardown hands back for release, dependents
    /// strictly before what they depend on: brush, render target, text
    /// format, text-layout factory, drawing factory.
    pub open spec fn all_handles(self) -> Seq<u64> {
        self.target_handles() + opt_handle(self.text_format) + opt_handle(self.dwrite_factory)
            + opt_handle(self.d2d1_factory)
    }
}

/// What `EnsureRenderTarget` asks of the caller.
#[derive(Clone, Copy, PartialEq, Eq, Structural, Debug)]
pub enum EnsureAction {
    /// No drawing factory exists: nothing can ever be rendered; report a
    /// fatal configuration error.
    NothingToRender,
    /// The render target already exists: do nothing.
    AlreadyPresent,
    /// Create a render target bound to the window and sized to the client
    /// area, then a solid black brush from it, and install the pair.
    CreateTarget,
}

/// What the resize transition asks of the caller.
#[derive(Clone, Copy, PartialEq, Eq, Structural, Debug)]
pub enum ResizeAction {
    /// No render target exists (or the window is destroyed): do nothing.
    /// The target will be created at the correct size on the next paint.
    Ignore,
    /// Tell the render target to adjust its backing surface to the new
    /// pixel dimensions.
    ResizeTarget { target: u64, width: u32, height: u32 },
}

/// What `EnsureRenderTarget` asks for in state `v`.
pub open spec fn spec_ensure_action(v: StateView) -> EnsureAction {
    if v.d2d1_factory is None {
        EnsureAction::NothingToRender
    } else if v.render_target is Some {
        EnsureAction::AlreadyPresent
    } else {
        EnsureAction::CreateTarget
    }
}

/// What the resize transition asks for in state `v`.
pub open spec fn spec_resize_action(v: StateView, width: u32, height: u32) -> ResizeAction {
    if v.destroyed {
        ResizeAction::Ignore
    } else {
        match v.render_target {
            Option::Some(t) => ResizeAction::ResizeTarget { target: t, width, height },
            Option::None => ResizeAction::Ignore,
        }
    }
}

/// The per-window render state: the window's identity, the text it shows,
/// and the five graphics-resource slots.
pub struct SimpleText {
    pub hwnd: u64,
    pub wtext: Vec<u16>,
    pub wtext_length: u32,
    pub d2d1_factory: Option<u64>,
    pub dwrite_factory: Option<u64>,
    pub text_format: Option<u64>,
    pub render_target: Option<u64>,
    pub brush: Option<u64>,
    pub destroyed: bool,
}

impl View for SimpleText {
    type V = StateView;

    open spec fn view(&self) -> StateView {
        StateView {
            hwnd: self.hwnd,
            wtext: self.wtext@,
            wtext_length: self.wtext_length,
            d2d1_factory: self.d2d1_factory,
            dwrite_factory: self.dwrite_factory,
            text_format: self.text_format,
            render_target: self.render_target,
            brush: self.brush,
            destroyed: self.destroyed,
        }
    }
}

impl SimpleText {
    /// A fresh state: no resources, no text, not destroyed.
    pub fn initialize() -> (s: SimpleText)
        ensures
            s@ == StateView::fresh(),
            s@.inv(),
            s@.phase() == Phase::Uninitialized,
    {
        let s = SimpleText {
            hwnd: 0,
            wtext: Vec::new(),
            wtext_length: 0,
            d2d1_factory: None,
            dwrite_factory: None,
            text_format: None,
            render_target: None,
            brush: None,
            destroyed: false,
        };
        proof {
            assert(s@ =~= StateView::fresh());
        }
        s
    }

    /// Stores the outcome of the two factory creations — either handle may
    /// be absent after a failure, and rendering then stays impossible — and
    /// fixes the text this window shows.
    ///
    /// Invoked exactly once, before anything depends on the factories.
    pub fn install_factories(&mut self, d2d1: Option<u64>, dwrite: Option<u64>)
        requires
            old(self)@.inv(),
            !old(self)@.destroyed,
            old(self)@.resources_empty(),
        ensures
            final(self)@ == old(self)@.install_factories(d2d1, dwrite),
            final(self)@.inv(),
    {
        proof {
            reveal_strlit("Hello World using DirectWrite!");
            lemma_wide_of_len(spec_greeting());
            assert(spec_greeting().len() == 30);
        }
        let text = greeting();
        let w = to_wide(text);
        self.wtext_length = (w.len() - 1) as u32;
        self.wtext = w;
        self.d2d1_factory = d2d1;
        self.dwrite_factory = dwrite;
        proof {
            assert(self@ =~= old(self)@.install_factories(d2d1, dwrite));
        }
    }

    /// Whether a text format still must be created: the text-layout factory
    /// exists and no format does yet.
    pub fn needs_text_format(&self) -> (b: bool)
        ensures
            b == (self@.dwrite_factory is Some && self@.text_format is None && !self@.destroyed),
    {
        self.dwrite_factory.is_some() && self.text_format.is_none() && !self.destroyed
    }

    /// Stores the handle of the created text format.
    pub fn install_text_format(&mut self, format: u64)
        requires
            old(self)@.inv(),
            old(self)@.dwrite_factory is Some,
            old(self)@.text_format is None,
        ensures
            final(self)@ == old(self)@.install_format(format),
            final(self)@.inv(),
    {
        self.text_format = Some(format);
        proof {
            assert(self@ =~= old(self)@.install_format(format));
        }
    }

    /// `EnsureRenderTarget`, the decision half: reports a fatal
    /// configuration error when no drawing factory exists, does nothing when
    /// the target already exists, and otherwise asks the caller to create
    /// the target-and-brush pair. Safe to call repeatedly.
    pub fn ensure_render_target_action(&self) -> (a: EnsureAction)
        ensures
            a == spec_ensure_action(self@),
    {
        if self.d2d1_factory.is_none() {
            EnsureAction::NothingToRender
        } else if self.render_target.is_some() {
            EnsureAction::AlreadyPresent
        } else {
            EnsureAction::CreateTarget
        }
    }

    /// `EnsureRenderTarget`, the installation half: stores the
    /// freshly-created render target and its solid black brush, together, so
    /// that at no observation point one exists without the other. Callers
    /// that fail to create either object install nothing.
    pub fn install_render_target(&mut self, target: u64, brush: u64)
        requires
            old(self)@.inv(),
            old(self)@.d2d1_factory is Some,
            old(self)@.render_target is None,
        ensures
            final(self)@ == old(self)@.install_target(target, brush),
            final(self)@.inv(),
            final(self)@.can_paint() == (old(self)@.text_format is Some),
    {
        self.render_target = Some(target);
        self.brush = Some(brush);
        proof {
            assert(self@ =~= old(self)@.install_target(target, brush));
        }
    }

    /// Whether a frame can be drawn now.
    pub fn can_paint(&self) -> (b: bool)
        requires
            self@.inv(),
        ensures
            b == self@.can_paint(),
    {
        self.render_target.is_some() && self.text_format.is_some()
    }

    /// `ReleaseTargetResources`: clears brush and render target together and
    /// hands back the handles to release, the dependent brush strictly first.
    /// A no-op returning no handles when already released; afterwards
    /// `EnsureRenderTarget` may run again.
    pub fn safe_release(&mut self) -> (released: Vec<u64>)
        requires
            old(self)@.inv(),
        ensures
            final(self)@ == old(self)@.release_target(),
            final(self)@.inv(),
            released@ == old(self)@.target_handles(),
    {
        let mut released: Vec<u64> = Vec::new();
        if let Some(b) = self.brush {
            released.push(b);
        }
        if let Some(t) = self.render_target {
            released.push(t);
        }
        self.brush = None;
        self.render_target = None;
        proof {
            assert(self@ =~= old(self)@.release_target());
            assert(released@ =~= old(self)@.target_handles());
        }
        released
    }

    /// `ReleaseAll`: clears every resource slot and hands back the handles
    /// to release, dependents strictly before what they depend on: brush,
    /// render target, text format, text-layout factory, drawing factory.
    /// Each slot is handed back only if it was held, so a second call
    /// returns nothing and changes nothing.
    pub fn release_resources(&mut self) -> (released: Vec<u64>)
        requires
            old(self)@.inv(),
        ensures
            final(self)@ == old(self)@.release_all(),
            final(self)@.inv(),
            final(self)@.resources_empty(),
            released@ == old(self)@.all_handles(),
    {
        let mut released = self.safe_release();
        if let Some(f) = self.text_format {
            released.push(f);
        }
        if let Some(dw) = self.dwrite_factory {
            released.push(dw);
        }
        if let Some(d2) = self.d2d1_factory {
            released.push(d2);
        }
        self.text_format = None;
        self.dwrite_factory = None;
        self.d2d1_factory = None;
        proof {
            assert(self@ =~= old(self)@.release_all());
            assert(released@ =~= old(self)@.all_handles());
        }
        released
    }

    /// The resize transition: a no-op while no render target exists (it will
    /// be created at the correct size on the next paint) or after destroy;
    /// otherwise the caller is told to resize the target's backing surface
    /// to the new dimensions. The state itself never changes.
    pub fn on_resize(&self, width: u32, height: u32) -> (a: ResizeAction)
        ensures
            a == spec_resize_action(self@, width, height),
    {
        if self.destroyed {
            ResizeAction::Ignore
        } else {
            match self.render_target {
                Some(t) => ResizeAction::ResizeTarget { target: t, width, height },
                None => ResizeAction::Ignore,
            }
        }
    }

    /// The paint epilogue: acts on the end-of-frame result code. A
    /// target-invalidation code tears down brush and render target — exactly
    /// the one `ReleaseTargetResources` — leaving a state whose next
    /// `EnsureRenderTarget` rebuilds both; every other code leaves the state
    /// untouched.
    pub fn finish_paint(&mut self, end_draw: u32) -> (released: Vec<u64>)
        requires
            old(self)@.inv(),
        ensures
            final(self)@.inv(),
            end_draw == HR_RECREATE_TARGET ==> final(self)@ == old(self)@.release_target()
                && released@ == old(self)@.target_handles(),
            end_draw != HR_RECREATE_TARGET ==> final(self)@ == old(self)@ && released@
                == Seq::<u64>::empty(),
            end_draw == HR_RECREATE_TARGET && old(self)@.text_format is Some
                ==> final(self)@.phase() == Phase::Ready,
            end_draw == HR_RECREATE_TARGET && old(self)@.d2d1_factory is Some
                ==> spec_ensure_action(final(self)@) == EnsureAction::CreateTarget,
    {
        if end_draw == HR_RECREATE_TARGET {
            self.safe_release()
        } else {
            Vec::new()
        }
    }

    /// The destroy transition: `ReleaseAll`, then terminal. The handles come
    /// back in release order, as from `release_resources`; on an already
    /// destroyed state nothing is held, so nothing comes back and nothing
    /// changes.
    pub fn on_destroy(&mut self) -> (released: Vec<u64>)
        requires
            old(self)@.inv(),
        ensures
            final(self)@ == old(self)@.destroy(),
            final(self)@.inv(),
            final(self)@.phase() == Phase::Destroyed,
            final(self)@.resources_empty(),
            released@ == old(self)@.all_handles(),
    {
        let released = self.release_resources();
        self.destroyed = true;
        proof {
            assert(self@ =~= old(self)@.destroy());
        }
        released
    }

    /// The lifecycle state this window is in.
    pub fn phase(&self) -> (p: Phase)
        ensures
            p == self@.phase(),
    {
        if self.destroyed {
            Phase::Destroyed
        } else if self.dwrite_factory.is_some() && self.text_format.is_some()
            && self.render_target.is_some() && self.brush.is_some() {
            Phase::Rendering
        } else if self.dwrite_factory.is_some() && self.text_format.is_some() {
            Phase::Ready
        } else {
            Phase::Uninitialized
        }
    }
}

} // verus!
