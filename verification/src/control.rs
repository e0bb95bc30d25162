//! The control loop, one tick at a time.
//!
//! The host reads the sensor's file and the current offset, hands both to
//! `tick`, sleeps for the interval, and then starts the commands that the tick
//! returned. Between ticks the loop remembers only the brightness it computed
//! last, and issues commands only when the brightness differs from it.

use crate::brightness::{brightness, compute_brightness};
use crate::config::{Settings, SettingsView};
use crate::dispatch::{dispatch_plan, display_dispatch, views_of, Invocation, InvocationView};
use crate::sensor::{parse_sensor, sensor_reading, SensorError};
use vstd::prelude::*;

verus! {

/// The brightness that the loop takes as computed last before its first tick.
pub const INITIAL_OUTPUT: u32 = 0;

/// The control loop between two ticks.
#[derive(Debug)]
pub struct ControlLoop {
    settings: Settings,
    previous: u32,
}

/// The control loop as plain values: its settings and the brightness it computed
/// last.
pub struct LoopView {
    pub settings: SettingsView,
    pub previous: int,
}

impl View for ControlLoop {
    type V = LoopView;

    closed spec fn view(&self) -> LoopView {
        LoopView { settings: self.settings@, previous: self.previous as int }
    }
}

/// The brightness that a tick computes from a sensor reading and an offset.
pub open spec fn tick_output(settings: SettingsView, sensor: int, offset: int) -> int {
    brightness(sensor, settings.divide, offset, settings.minimum, settings.maximum)
}

/// The commands that a tick issues: one per display where the brightness differs
/// from the one computed last, none where it is the same.
pub open spec fn tick_commands(state: LoopView, sensor: int, offset: int) -> Seq<InvocationView> {
    let output = tick_output(state.settings, sensor, offset);
    if output != state.previous {
        dispatch_plan(state.settings.displays, output)
    } else {
        Seq::empty()
    }
}

/// The loop after a tick: it remembers the brightness just computed.
pub open spec fn after_tick(state: LoopView, sensor: int, offset: int) -> LoopView {
    LoopView { settings: state.settings, previous: tick_output(state.settings, sensor, offset) }
}

impl ControlLoop {
    /// The loop before its first tick.
    pub fn new(settings: Settings) -> (control: Self)
        ensures
            control@ == (LoopView { settings: settings@, previous: INITIAL_OUTPUT as int }),
    {
        ControlLoop { settings, previous: INITIAL_OUTPUT }
    }

    /// The settings that the loop runs with.
    pub fn settings(&self) -> (settings: &Settings)
        ensures
            settings@ == self@.settings,
    {
        &self.settings
    }

    /// The brightness computed by the last tick.
    pub fn previous_output(&self) -> (output: u32)
        ensures
            output == self@.previous,
    {
        self.previous
    }

    /// One tick on a sensor reading: computes the brightness, remembers it, and
    /// returns the commands to start.
    pub fn step(&mut self, sensor: i32, offset: i32) -> (commands: Vec<Invocation>)
        ensures
            views_of(commands@) == tick_commands(old(self)@, sensor as int, offset as int),
            final(self)@ == after_tick(old(self)@, sensor as int, offset as int),
    {
        let output = compute_brightness(
            sensor,
            self.settings.divide(),
            offset,
            self.settings.minimum(),
            self.settings.maximum(),
        );
        let commands = if output != self.previous {
            display_dispatch(self.settings.displays(), output)
        } else {
            Vec::new()
        };
        self.previous = output;
        commands
    }

    /// One tick on the sensor's text.
    ///
    /// A text that holds no reading fails the tick and leaves the loop as it was;
    /// the host treats that as fatal. Otherwise the tick is `step` on the reading.
    pub fn tick(&mut self, sensor_text: &str, offset: i32) -> (commands: Result<
        Vec<Invocation>,
        SensorError,
    >)
        ensures
            match sensor_reading(sensor_text@) {
                Ok(sensor) => commands is Ok && views_of(commands->Ok_0@) == tick_commands(
                    old(self)@,
                    sensor as int,
                    offset as int,
                ) && final(self)@ == after_tick(old(self)@, sensor as int, offset as int),
                Err(error) => commands == Err::<Vec<Invocation>, SensorError>(error) && final(self)@
                    == old(self)@,
            },
    {
        match parse_sensor(sensor_text) {
            Ok(sensor) => Ok(self.step(sensor, offset)),
            Err(error) => Err(error),
        }
    }
}

/// A tick whose brightness equals the one computed last issues no command.
pub proof fn lemma_unchanged_output_issues_nothing(state: LoopView, sensor: int, offset: int)
    requires
        tick_output(state.settings, sensor, offset) == state.previous,
    ensures
        tick_commands(state, sensor, offset) == Seq::<InvocationView>::empty(),
        after_tick(state, sensor, offset) == state,
{
}

/// Of two ticks in a row that compute the same brightness, the second issues no
/// command: a brightness is sent to the displays once.
pub proof fn lemma_repeated_output_is_sent_once(
    state: LoopView,
    sensor: int,
    offset: int,
    next_sensor: int,
    next_offset: int,
)
    requires
        tick_output(state.settings, next_sensor, next_offset) == tick_output(
            state.settings,
            sensor,
            offset,
        ),
    ensures
        tick_commands(after_tick(state, sensor, offset), next_sensor, next_offset) == Seq::<
            InvocationView,
        >::empty(),
{
}

/// A tick whose brightness differs from the one computed last issues one command
/// per display, in the displays' order, each with the new brightness.
pub proof fn lemma_changed_output_reaches_every_display(state: LoopView, sensor: int, offset: int)
    requires
        tick_output(state.settings, sensor, offset) != state.previous,
    ensures
        tick_commands(state, sensor, offset).len() == state.settings.displays.len(),
        forall|i: int|
            0 <= i < state.settings.displays.len() ==> (#[trigger] tick_commands(
                state,
                sensor,
                offset,
            )[i]).program == state.settings.displays[i],
{
}

/// With bounds that do not cross, the brightness that a tick computes and
/// remembers lies within them.
pub proof fn lemma_tick_output_within_bounds(settings: SettingsView, sensor: int, offset: int)
    requires
        settings.minimum <= settings.maximum,
    ensures
        settings.minimum <= tick_output(settings, sensor, offset) <= settings.maximum,
{
}

} // verus!
