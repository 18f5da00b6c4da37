//! The frame orchestration of the host loop.
//!
//! Each frame drains the pending input events, then runs a fixed budget of
//! instructions, ticks the timers once and redraws the screen. The decisions
//! of a frame are made here as a list of commands for the machine; the
//! caller performs them in order and then waits for the display refresh.
use vstd::prelude::*;
use crate::keymap::{keypad_index, layout, EXIT_KEY};

verus! {

/// Startup settings of the host loop.
#[derive(Clone, Copy, Debug, PartialEq, Eq, Structural)]
pub struct Config {
    /// Instructions the machine executes per display frame.
    pub instructions_per_frame: usize,
    /// Real pixels per edge of one emulated pixel.
    pub pixel_scale: u32,
}

/// Instructions per frame in the standard configuration.
pub const DEFAULT_INSTRUCTIONS_PER_FRAME: usize = 10;

/// Pixel scale in the standard configuration.
pub const DEFAULT_PIXEL_SCALE: u32 = 15;

impl Config {
    /// A configuration is usable when its pixel scale is positive.
    pub open spec fn wf(&self) -> bool {
        self.pixel_scale > 0
    }

    /// A configuration with the given settings; `None` when `pixel_scale`
    /// is zero.
    pub fn new(instructions_per_frame: usize, pixel_scale: u32) -> (r: Option<Config>)
        ensures
            pixel_scale == 0 <==> r is None,
            r matches Some(c) ==> c.instructions_per_frame == instructions_per_frame
                && c.pixel_scale == pixel_scale && c.wf(),
    {
        if pixel_scale == 0 {
            None
        } else {
            Some(Config { instructions_per_frame, pixel_scale })
        }
    }

    /// The standard configuration: ten instructions per frame, scale 15.
    pub fn standard() -> (r: Config)
        ensures
            r.instructions_per_frame == DEFAULT_INSTRUCTIONS_PER_FRAME,
            r.pixel_scale == DEFAULT_PIXEL_SCALE,
            r.wf(),
    {
        Config {
            instructions_per_frame: DEFAULT_INSTRUCTIONS_PER_FRAME,
            pixel_scale: DEFAULT_PIXEL_SCALE,
        }
    }

    /// The window size, in real pixels, that shows a `width` x `height`
    /// framebuffer; `None` when a side does not fit in a `u32`.
    pub fn window_size(&self, width: u32, height: u32) -> (r: Option<(u32, u32)>)
        ensures
            r is None <==> (width * self.pixel_scale > u32::MAX || height * self.pixel_scale
                > u32::MAX),
            r matches Some((w, h)) ==> w == width * self.pixel_scale && h == height
                * self.pixel_scale,
    {
        match (width.checked_mul(self.pixel_scale), height.checked_mul(self.pixel_scale)) {
            (Some(w), Some(h)) => Some((w, h)),
            _ => None,
        }
    }
}

/// One input event taken from the platform's event queue.
#[derive(Clone, Copy, Debug, PartialEq, Eq, Structural)]
pub enum InputEvent {
    /// The platform asks the program to quit.
    Quit,
    /// The key with this key symbol went down.
    KeyDown(char),
    /// The key with this key symbol went up.
    KeyUp(char),
    /// Any other event.
    Other,
}

/// One operation on the machine.
#[derive(Clone, Copy, Debug, PartialEq, Eq, Structural)]
pub enum Command {
    /// Set the pressed state of a keypad index.
    SetKey(usize, bool),
    /// Execute one instruction.
    Step,
    /// Decrement the delay and sound timers once.
    TickTimers,
    /// Redraw the screen from the framebuffer.
    Render,
}

/// Whether the host loop goes on.
#[derive(Clone, Copy, Debug, PartialEq, Eq, Structural)]
pub enum LoopState {
    Running,
    Stopped,
}

/// The event ends the loop: a quit signal or a press of the exit key.
pub open spec fn is_stop(ev: InputEvent) -> bool {
    ev is Quit || ev == InputEvent::KeyDown(EXIT_KEY)
}

/// The keypad command that an event gives on its own, if any.
pub open spec fn key_effect(ev: InputEvent) -> Option<Command> {
    match ev {
        InputEvent::KeyDown(c) => match layout(c) {
            Some(i) => Some(Command::SetKey(i, true)),
            None => None,
        },
        InputEvent::KeyUp(c) => match layout(c) {
            Some(i) => Some(Command::SetKey(i, false)),
            None => None,
        },
        _ => None,
    }
}

/// An optional command as a sequence of zero or one commands.
pub open spec fn opt_seq(c: Option<Command>) -> Seq<Command> {
    match c {
        Some(c) => seq![c],
        None => seq![],
    }
}

/// The keypad commands of a batch of events, up to the first event that
/// ends the loop.
pub open spec fn drained(evs: Seq<InputEvent>) -> Seq<Command>
    decreases evs.len(),
{
    if evs.len() == 0 || is_stop(evs[0]) {
        seq![]
    } else {
        opt_seq(key_effect(evs[0])) + drained(evs.drop_first())
    }
}

/// Some event of the batch ends the loop.
pub open spec fn halts(evs: Seq<InputEvent>) -> bool {
    exists|i: int| 0 <= i < evs.len() && is_stop(#[trigger] evs[i])
}

/// The work of a frame: `n` steps, one timer tick, one render.
pub open spec fn work(n: nat) -> Seq<Command> {
    Seq::new(n, |_k: int| Command::Step).push(Command::TickTimers).push(Command::Render)
}

/// The commands of a frame with budget `n` whose batch of events is `evs`.
pub open spec fn frame_spec(n: nat, evs: Seq<InputEvent>) -> Seq<Command> {
    if halts(evs) {
        drained(evs)
    } else {
        drained(evs) + work(n)
    }
}

/// Whether the event ends the loop.
pub fn is_stop_event(ev: &InputEvent) -> (r: bool)
    ensures
        r == is_stop(*ev),
{
    match ev {
        InputEvent::Quit => true,
        InputEvent::KeyDown(c) => *c == EXIT_KEY,
        _ => false,
    }
}

/// The keypad command that the event gives: a press or release of a key of
/// the layout sets that keypad index; anything else gives `None`.
pub fn key_command(ev: &InputEvent) -> (r: Option<Command>)
    ensures
        r == key_effect(*ev),
{
    match ev {
        InputEvent::KeyDown(c) => match keypad_index(*c) {
            Some(i) => Some(Command::SetKey(i, true)),
            None => None,
        },
        InputEvent::KeyUp(c) => match keypad_index(*c) {
            Some(i) => Some(Command::SetKey(i, false)),
            None => None,
        },
        _ => None,
    }
}

/// The commands of one frame, and whether the loop stops after it.
#[derive(Debug)]
pub struct FramePlan {
    pub commands: Vec<Command>,
    pub stop: bool,
}

/// Plans one frame: the keypad commands of `events` up to the first event
/// that ends the loop; then, unless such an event came,
/// `instructions_per_frame` steps, one timer tick and one render.
pub fn plan_frame(config: &Config, events: &[InputEvent]) -> (r: FramePlan)
    ensures
        r.stop == halts(events@),
        r.commands@ == frame_spec(config.instructions_per_frame as nat, events@),
{
    let mut commands: Vec<Command> = Vec::new();
    let mut stop = false;
    let mut i: usize = 0;
    assert(events@.subrange(0, events@.len() as int) =~= events@);
    assert(commands@ + drained(events@) =~= drained(events@));
    while !stop && i < events.len()
        invariant
            i <= events@.len(),
            forall|j: int| 0 <= j < i ==> !is_stop(#[trigger] events@[j]),
            stop ==> i < events@.len() && is_stop(events@[i as int]),
            drained(events@) == commands@ + drained(events@.subrange(i as int, events@.len() as int)),
        decreases events@.len() - i + (if stop { 0int } else { 1int }),
    {
        let ev = &events[i];
        if is_stop_event(ev) {
            stop = true;
        } else {
            let ghost rest = events@.subrange(i as int, events@.len() as int);
            assert(rest.drop_first() =~= events@.subrange(i + 1, events@.len() as int));
            match key_command(ev) {
                Some(c) => commands.push(c),
                None => {},
            }
            i = i + 1;
        }
    }
    let ghost drained_part = commands@;
    if stop {
        assert(halts(events@));
    } else {
        assert(events@.subrange(i as int, events@.len() as int).len() == 0);
        assert(!halts(events@));
        let mut k: usize = 0;
        while k < config.instructions_per_frame
            invariant
                k <= config.instructions_per_frame,
                commands@ == drained_part + Seq::new(k as nat, |_k: int| Command::Step),
            decreases config.instructions_per_frame - k,
        {
            commands.push(Command::Step);
            k = k + 1;
            assert(commands@ =~= drained_part + Seq::new(k as nat, |_k: int| Command::Step));
        }
        commands.push(Command::TickTimers);
        commands.push(Command::Render);
        assert(commands@ =~= drained_part + work(config.instructions_per_frame as nat));
    }
    FramePlan { commands, stop }
}

/// The state after a frame that starts in `state` with budget `n` and events
/// `evs`, and the frame's commands.
pub open spec fn next_frame(state: LoopState, n: nat, evs: Seq<InputEvent>) -> (LoopState, Seq<Command>) {
    match state {
        LoopState::Stopped => (LoopState::Stopped, seq![]),
        LoopState::Running => (
            if halts(evs) {
                LoopState::Stopped
            } else {
                LoopState::Running
            },
            frame_spec(n, evs),
        ),
    }
}

/// The host loop's decisions across frames: its configuration and whether
/// it still runs. It starts running once the machine has loaded a program.
#[derive(Clone, Copy, Debug)]
pub struct HostLoop {
    pub config: Config,
    pub state: LoopState,
}

impl HostLoop {
    /// A running loop with the given configuration.
    pub fn new(config: Config) -> (r: HostLoop)
        ensures
            r.config == config,
            r.state == LoopState::Running,
    {
        HostLoop { config, state: LoopState::Running }
    }

    /// Whether the loop still runs.
    pub fn is_running(&self) -> (r: bool)
        ensures
            r == (self.state == LoopState::Running),
    {
        match self.state {
            LoopState::Running => true,
            LoopState::Stopped => false,
        }
    }

    /// The commands of the next frame, given the events drained at its
    /// start. A running loop plans the frame and stops when an event of the
    /// batch ends it; a stopped loop issues nothing and stays stopped.
    pub fn frame(&mut self, events: &[InputEvent]) -> (r: Vec<Command>)
        ensures
            final(self).config == old(self).config,
            (final(self).state, r@) == next_frame(
                old(self).state,
                old(self).config.instructions_per_frame as nat,
                events@,
            ),
    {
        match self.state {
            LoopState::Stopped => Vec::new(),
            LoopState::Running => {
                let plan = plan_frame(&self.config, events);
                if plan.stop {
                    self.state = LoopState::Stopped;
                }
                plan.commands
            },
        }
    }
}

/// Every command drawn from input events is a keypad command.
pub proof fn lemma_drained_only_keys(evs: Seq<InputEvent>)
    ensures
        forall|k: int| 0 <= k < drained(evs).len() ==> #[trigger] drained(evs)[k] is SetKey,
    decreases evs.len(),
{
    if evs.len() > 0 && !is_stop(evs[0]) {
        lemma_drained_only_keys(evs.drop_first());
        let head = opt_seq(key_effect(evs[0]));
        assert forall|k: int| 0 <= k < drained(evs).len() implies #[trigger] drained(evs)[k] is SetKey by {
            if k >= head.len() {
                assert(drained(evs)[k] == drained(evs.drop_first())[k - head.len()]);
            }
        }
    }
}

/// In a frame that no event ends, the keypad commands come first, then
/// exactly `n` steps, then one timer tick, then one render, and nothing
/// after it.
pub proof fn lemma_frame_order(n: nat, evs: Seq<InputEvent>)
    requires
        !halts(evs),
    ensures
        frame_spec(n, evs).len() == drained(evs).len() + n + 2,
        forall|k: int| 0 <= k < drained(evs).len() ==> #[trigger] frame_spec(n, evs)[k] is SetKey,
        forall|k: int|
            drained(evs).len() <= k < drained(evs).len() + n ==> #[trigger] frame_spec(n, evs)[k]
                == Command::Step,
        frame_spec(n, evs)[drained(evs).len() + n as int] == Command::TickTimers,
        frame_spec(n, evs)[drained(evs).len() + n as int + 1] == Command::Render,
{
    lemma_drained_only_keys(evs);
    let d = drained(evs).len();
    let f = frame_spec(n, evs);
    assert forall|k: int| 0 <= k < d implies #[trigger] f[k] is SetKey by {
        assert(f[k] == drained(evs)[k]);
    }
}

/// A frame whose events end the loop issues keypad commands only: no step,
/// no timer tick and no render.
pub proof fn lemma_stop_ends_work(n: nat, evs: Seq<InputEvent>)
    requires
        halts(evs),
    ensures
        forall|k: int| 0 <= k < frame_spec(n, evs).len() ==> #[trigger] frame_spec(n, evs)[k] is SetKey,
{
    lemma_drained_only_keys(evs);
}

/// After a frame whose events end the loop, the loop is stopped, and every
/// later frame issues no command whatever its events.
pub proof fn lemma_stopped_stays_inert(n: nat, evs: Seq<InputEvent>, later: Seq<InputEvent>)
    requires
        halts(evs),
    ensures
        next_frame(LoopState::Running, n, evs).0 == LoopState::Stopped,
        next_frame(next_frame(LoopState::Running, n, evs).0, n, later).1.len() == 0,
        next_frame(next_frame(LoopState::Running, n, evs).0, n, later).0 == LoopState::Stopped,
{
}

/// The program image path among the positional command-line arguments: the
/// one argument when exactly one is given, else `None` (the caller then
/// prints the usage and ends without touching the machine).
pub fn program_argument(args: &[String]) -> (r: Option<&String>)
    ensures
        r is Some <==> args@.len() == 1,
        r matches Some(p) ==> *p == args@[0],
{
    if args.len() == 1 {
        Some(&args[0])
    } else {
        None
    }
}

} // verus!
