use chip8_host::host::{
    is_stop_event, key_command, plan_frame, program_argument, Command, Config, HostLoop,
    InputEvent, LoopState,
};
use chip8_host::keymap::EXIT_KEY;
use chip8_host::render::screen_rects;

/// A stand-in machine that records what it is asked to do.
struct CountingMachine {
    instructions: u64,
    timer_ticks: u64,
    renders: u64,
    keys: Vec<(usize, bool)>,
    calls: Vec<&'static str>,
    display: Vec<bool>,
}

impl CountingMachine {
    fn new() -> Self {
        CountingMachine {
            instructions: 0,
            timer_ticks: 0,
            renders: 0,
            keys: Vec::new(),
            calls: Vec::new(),
            display: vec![false; 64 * 32],
        }
    }

    fn perform(&mut self, cmd: Command) {
        match cmd {
            Command::SetKey(i, p) => {
                self.keys.push((i, p));
                self.calls.push("set_key");
            }
            Command::Step => {
                self.instructions += 1;
                self.calls.push("step");
            }
            Command::TickTimers => {
                self.timer_ticks += 1;
                self.calls.push("tick_timers");
            }
            Command::Render => {
                let _ = screen_rects(&self.display, 64, 15);
                self.renders += 1;
                self.calls.push("render");
            }
        }
    }
}

fn run(host: &mut HostLoop, machine: &mut CountingMachine, events: &[InputEvent]) -> bool {
    for cmd in host.frame(events) {
        machine.perform(cmd);
    }
    host.is_running()
}

#[test]
fn three_frames_run_thirty_instructions_and_three_ticks() {
    let mut host = HostLoop::new(Config::standard());
    let mut m = CountingMachine::new();
    for _ in 0..3 {
        assert!(run(&mut host, &mut m, &[]));
    }
    assert_eq!(m.instructions, 30);
    assert_eq!(m.timer_ticks, 3);
    assert_eq!(m.renders, 3);
}

#[test]
fn frame_steps_then_ticks_then_renders() {
    let cfg = Config::standard();
    let plan = plan_frame(&cfg, &[]);
    assert!(!plan.stop);
    let mut expected = vec![Command::Step; 10];
    expected.push(Command::TickTimers);
    expected.push(Command::Render);
    assert_eq!(plan.commands, expected);
}

#[test]
fn input_precedes_execution() {
    let cfg = Config::new(4, 2).unwrap();
    let plan = plan_frame(&cfg, &[InputEvent::KeyDown('1'), InputEvent::Other, InputEvent::KeyUp('v')]);
    assert_eq!(
        plan.commands,
        vec![
            Command::SetKey(1, true),
            Command::SetKey(0xF, false),
            Command::Step,
            Command::Step,
            Command::Step,
            Command::Step,
            Command::TickTimers,
            Command::Render,
        ]
    );
}

#[test]
fn press_then_release_w_sets_key_five() {
    let mut host = HostLoop::new(Config::standard());
    let mut m = CountingMachine::new();
    assert!(run(&mut host, &mut m, &[InputEvent::KeyDown('w'), InputEvent::KeyUp('w')]));
    assert_eq!(m.keys, vec![(5, true), (5, false)]);
    assert_eq!(&m.calls[..2], &["set_key", "set_key"]);
}

#[test]
fn quit_ends_loop_without_further_work() {
    let mut host = HostLoop::new(Config::standard());
    let mut m = CountingMachine::new();
    let events = [InputEvent::KeyDown('w'), InputEvent::Quit, InputEvent::KeyDown('e')];
    assert!(!run(&mut host, &mut m, &events));
    assert_eq!(host.state, LoopState::Stopped);
    assert_eq!(m.keys, vec![(5, true)]);
    assert_eq!(m.instructions, 0);
    assert_eq!(m.timer_ticks, 0);
    assert_eq!(m.renders, 0);
    assert!(host.frame(&[]).is_empty());
    assert_eq!(host.state, LoopState::Stopped);
}

#[test]
fn exit_key_press_stops_and_release_does_not() {
    let cfg = Config::standard();
    let plan = plan_frame(&cfg, &[InputEvent::KeyDown(EXIT_KEY)]);
    assert!(plan.stop);
    assert!(plan.commands.is_empty());
    let plan = plan_frame(&cfg, &[InputEvent::KeyUp(EXIT_KEY)]);
    assert!(!plan.stop);
    assert_eq!(plan.commands.len(), 12);
}

#[test]
fn unmapped_keys_and_other_events_change_nothing() {
    assert_eq!(key_command(&InputEvent::KeyDown('g')), None);
    assert_eq!(key_command(&InputEvent::KeyUp('5')), None);
    assert_eq!(key_command(&InputEvent::Other), None);
    assert_eq!(key_command(&InputEvent::Quit), None);
    assert_eq!(key_command(&InputEvent::KeyUp('c')), Some(Command::SetKey(0xB, false)));
    assert!(is_stop_event(&InputEvent::Quit));
    assert!(!is_stop_event(&InputEvent::KeyDown('q')));
}

#[test]
fn zero_budget_still_ticks_and_renders() {
    let cfg = Config::new(0, 1).unwrap();
    let plan = plan_frame(&cfg, &[]);
    assert_eq!(plan.commands, vec![Command::TickTimers, Command::Render]);
}

#[test]
fn wrong_argument_count_gives_usage_and_no_machine_calls() {
    let none: Vec<String> = Vec::new();
    let two = vec!["a.ch8".to_string(), "b.ch8".to_string()];
    assert_eq!(program_argument(&none), None);
    assert_eq!(program_argument(&two), None);
    let one = vec!["game.ch8".to_string()];
    assert_eq!(program_argument(&one), Some(&"game.ch8".to_string()));
    let m = CountingMachine::new();
    assert!(m.calls.is_empty());
}

#[test]
fn config_rejects_zero_scale() {
    assert_eq!(Config::new(10, 0), None);
    let c = Config::new(10, 15).unwrap();
    assert_eq!(c, Config::standard());
}

#[test]
fn window_size_scales_the_screen() {
    let c = Config::standard();
    assert_eq!(c.window_size(64, 32), Some((960, 480)));
    assert_eq!(c.window_size(u32::MAX / 15 + 1, 32), None);
    assert_eq!(c.window_size(64, u32::MAX), None);
}
