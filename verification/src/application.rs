//! The state of the bar that outlives a frame, and the window that ties it
//! to the surface geometry and the colours.

use vstd::prelude::*;
use crate::buffers::FrameBuffer;
use crate::config::ConfigState;
use crate::modules::audio::AudioModule;
use crate::modules::clock::{now_seconds, ClockModule};
use crate::modules::Module;
use crate::text::{join_from_last, join_reversed};
use crate::volume::VolumeError;

verus! {

/// What the bar remembers between pointer events and frames.
pub struct AppState {
    /// True until the first size notification has been answered with a frame.
    pub first_configure: bool,
    /// The pointer is in the activation corridor along the top edge.
    pub track_x: bool,
    /// The pointer is in the activation corridor along the left edge.
    pub track_y: bool,
    /// The latch: while set, the bar does not collapse by itself.
    pub no_disappearing: bool,
    /// Width of the opaque bar in pixels; 0 hides it.
    pub bar_width: u32,
    /// The modules, in the order in which they were registered.
    pub modules: Vec<Module>,
}

/// The size of the surface, as the display server last reported it, and the
/// bookkeeping of its pixel buffers.
pub struct GraphicsState {
    pub width: u32,
    pub height: u32,
    pub frames: FrameBuffer,
}

/// The bar: geometry and buffers, state, and colours.
pub struct BarWindow {
    pub graphics: GraphicsState,
    pub state: AppState,
    pub config: ConfigState,
}

/// The modules after a frame in which the audio service reported `volume`.
pub open spec fn modules_after(modules: Seq<Module>, volume: Result<u8, VolumeError>) -> Seq<
    Module,
> {
    Seq::new(modules.len(), |i: int| modules[i].after(volume))
}

/// What each module shows at the instant `seconds` after the Unix epoch.
pub open spec fn modules_shown(modules: Seq<Module>, seconds: i64) -> Seq<Seq<char>> {
    Seq::new(modules.len(), |i: int| modules[i].shown(seconds))
}

/// How many of the first `upto` modules hold a connection that has to be
/// closed at the end.
pub open spec fn connections(modules: Seq<Module>, upto: int) -> nat
    decreases upto,
{
    if upto <= 0 {
        0
    } else {
        connections(modules, upto - 1) + if modules[upto - 1].holds_connection() {
            1nat
        } else {
            0nat
        }
    }
}

/// The modules of a new bar: the clock, then the audio module with no
/// volume read yet.
pub open spec fn initial_modules() -> Seq<Module> {
    seq![Module::Clock(ClockModule {  }), Module::Audio(AudioModule { previous: 0 })]
}

impl AppState {
    /// The state at startup: a hidden bar, nothing tracked, no latch, and
    /// the clock registered before the audio module.
    pub fn new() -> (state: AppState)
        ensures
            state.first_configure,
            !state.track_x,
            !state.track_y,
            !state.no_disappearing,
            state.bar_width == 0,
            state.modules@ == initial_modules(),
    {
        let mut modules: Vec<Module> = Vec::new();
        modules.push(Module::Clock(ClockModule::new()));
        modules.push(Module::Audio(AudioModule::new()));
        assert(modules@ =~= initial_modules());
        AppState {
            first_configure: true,
            track_x: false,
            track_y: false,
            no_disappearing: false,
            bar_width: 0,
            modules,
        }
    }

    /// Whether `other` differs from `self` in the modules at most.
    pub open spec fn same_apart_from_modules(&self, other: &AppState) -> bool {
        &&& self.first_configure == other.first_configure
        &&& self.track_x == other.track_x
        &&& self.track_y == other.track_y
        &&& self.no_disappearing == other.no_disappearing
        &&& self.bar_width == other.bar_width
    }

    /// The text of the bar at the instant `seconds` after the Unix epoch,
    /// given what the audio service reported: the texts of the modules, the
    /// one registered last first, with one space between neighbours.
    pub fn get_modules_display_at(&mut self, seconds: i64, volume: Result<u8, VolumeError>) -> (text:
        String)
        ensures
            final(self).modules@ == modules_after(old(self).modules@, volume),
            text@ == join_reversed(modules_shown(final(self).modules@, seconds)),
            final(self).same_apart_from_modules(old(self)),
    {
        let n: usize = self.modules.len();
        let mut parts: Vec<String> = Vec::new();
        let mut i: usize = 0;
        while i < n
            invariant
                i <= n,
                n == self.modules@.len(),
                n == old(self).modules@.len(),
                parts@.len() == i,
                self.same_apart_from_modules(old(self)),
                forall|k: int| 0 <= k < i ==> self.modules@[k] == old(self).modules@[k].after(volume),
                forall|k: int| i <= k < n ==> self.modules@[k] == old(self).modules@[k],
                forall|k: int| 0 <= k < i ==> (#[trigger] parts@[k])@ == self.modules@[k].shown(seconds),
            decreases n - i,
        {
            let mut module: Module = self.modules[i];
            let part = module.display(seconds, volume);
            self.modules[i] = module;
            parts.push(part);
            i += 1;
        }
        assert(self.modules@ =~= modules_after(old(self).modules@, volume));
        assert(crate::text::texts(parts@) =~= modules_shown(self.modules@, seconds));
        join_from_last(&parts)
    }

    /// The text of the bar at the present instant, given what the audio
    /// service reported.
    pub fn get_modules_display(&mut self, volume: Result<u8, VolumeError>) -> (text: String)
        ensures
            final(self).modules@ == modules_after(old(self).modules@, volume),
            exists|seconds: i64|
                text@ == join_reversed(modules_shown(final(self).modules@, seconds)),
            final(self).same_apart_from_modules(old(self)),
    {
        let now: i64 = now_seconds();
        self.get_modules_display_at(now, volume)
    }

    /// Cleans every module up and returns how many connections have to be
    /// closed.
    pub fn module_cleanup(&mut self) -> (closing: usize)
        ensures
            closing == connections(old(self).modules@, old(self).modules@.len() as int),
            final(self).modules@ == old(self).modules@,
            final(self).same_apart_from_modules(old(self)),
    {
        let n: usize = self.modules.len();
        let mut closing: usize = 0;
        let mut i: usize = 0;
        while i < n
            invariant
                i <= n,
                n == self.modules@.len(),
                closing <= i,
                closing == connections(self.modules@, i as int),
                self.modules@ == old(self).modules@,
                self.same_apart_from_modules(old(self)),
            decreases n - i,
        {
            let mut module: Module = self.modules[i];
            if module.clean_up() {
                closing += 1;
            }
            self.modules[i] = module;
            assert(self.modules@ =~= old(self).modules@);
            i += 1;
        }
        closing
    }
}

impl GraphicsState {
    /// The geometry of a surface for which no buffer exists yet.
    pub fn new(width: u32, height: u32) -> (graphics: GraphicsState)
        ensures
            graphics.width == width,
            graphics.height == height,
            graphics.frames@.outstanding.len() == 0,
            graphics.frames@.current is None,
    {
        GraphicsState { width, height, frames: FrameBuffer::new() }
    }

    /// The length in bytes of a canvas for the surface: four for each
    /// pixel.
    pub open spec fn canvas_bytes(&self) -> int {
        4 * (self.width as int) * (self.height as int)
    }

    /// The length in bytes of a canvas for the surface, or `None` where
    /// that is more than the machine can address.
    pub fn canvas_len(&self) -> (len: Option<usize>)
        ensures
            match len {
                Some(n) => n == self.canvas_bytes(),
                None => self.canvas_bytes() > usize::MAX,
            },
    {
        let (width, height) = (self.width, self.height);
        assert(0 <= width * height <= 0xFFFF_FFFF * 0xFFFF_FFFF && 4 * (width as int) * (
        height as int) == (width * height) * 4) by (nonlinear_arith);
        let pixels: u64 = width as u64 * height as u64;
        match pixels.checked_mul(4) {
            Some(bytes) => if bytes <= usize::MAX as u64 {
                Some(bytes as usize)
            } else {
                None
            },
            None => None,
        }
    }
}

impl BarWindow {
    /// The bar at startup, for a surface of the given size.
    pub fn new(width: u32, height: u32, config: ConfigState) -> (window: BarWindow)
        ensures
            window.graphics.width == width,
            window.graphics.height == height,
            window.graphics.frames@.outstanding.len() == 0,
            window.graphics.frames@.current is None,
            window.config == config,
            window.state.first_configure,
            window.state.bar_width == 0,
            !window.state.track_x && !window.state.track_y && !window.state.no_disappearing,
            window.state.modules@ == initial_modules(),
    {
        BarWindow {
            graphics: GraphicsState::new(width, height),
            state: AppState::new(),
            config,
        }
    }

    /// Takes in the size that the display server assigned to the surface
    /// and says whether a frame has to be drawn at once, which is so for
    /// the first size only.
    pub fn configure(&mut self, width: u32, height: u32) -> (draw_now: bool)
        ensures
            draw_now == old(self).state.first_configure,
            final(self).graphics.width == width,
            final(self).graphics.height == height,
            final(self).graphics.frames == old(self).graphics.frames,
            !final(self).state.first_configure,
            final(self).state.modules == old(self).state.modules,
            final(self).state.bar_state() == old(self).state.bar_state(),
            final(self).config == old(self).config,
    {
        self.graphics.width = width;
        self.graphics.height = height;
        let draw_now: bool = self.state.first_configure;
        self.state.first_configure = false;
        draw_now
    }
}

} // verus!
