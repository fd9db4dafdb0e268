use vstd::prelude::*;

use crate::drawer::Drawer;
use crate::signals::{SignalNames, Signals};
use crate::widgets::{ServiceList, WidgetError, WidgetList};

verus! {

/// What every widget draws into and listens on: the compositor and the named signals.
pub struct Environment {
    pub drawer: Drawer,
    pub signals: Signals,
}

/// Index of the keyboard signal that `keyboard_signal` finds: the first one registered.
pub open spec fn env_keyboard_index(env: Environment) -> int {
    choose|i: int|
        0 <= i < env.signals.names().len() && env.signals.names()[i].same_as(SignalNames::Keyboard) && forall|j: int|
            0 <= j < i ==> !env.signals.names()[j].same_as(SignalNames::Keyboard)
}

/// Any keyboard signal with none before it is the one `env_keyboard_index` names.
pub proof fn lemma_first_keyboard(env: Environment, i: int)
    requires
        0 <= i < env.signals.names().len(),
        env.signals.names()[i].same_as(SignalNames::Keyboard),
        forall|j: int| 0 <= j < i ==> !env.signals.names()[j].same_as(SignalNames::Keyboard),
    ensures
        env_keyboard_index(env) == i,
{
    let k = env_keyboard_index(env);
    assert(0 <= k < env.signals.names().len() && env.signals.names()[k].same_as(SignalNames::Keyboard));
    if k < i {
        assert(!env.signals.names()[k].same_as(SignalNames::Keyboard));
    }
    if i < k {
        assert(!env.signals.names()[i].same_as(SignalNames::Keyboard));
    }
}

impl Environment {
    pub fn new(drawer: Drawer) -> (e: Environment)
        ensures
            e.drawer == drawer,
            e.signals.names().len() == 0,
    {
        Environment { drawer, signals: Signals::new() }
    }

    /// The signal the keyboard service publishes layouts on; a keyboard widget cannot work
    /// without it.
    pub fn keyboard_signal(&self) -> (r: Result<usize, WidgetError>)
        ensures
            r is Ok <==> exists|i: int|
                0 <= i < self.signals.names().len() && self.signals.names()[i].same_as(SignalNames::Keyboard),
            r matches Ok(i) ==> i < self.signals.names().len() && self.signals.names()[i as int].same_as(
                SignalNames::Keyboard,
            ) && forall|j: int| 0 <= j < i ==> !self.signals.names()[j].same_as(SignalNames::Keyboard),
            r matches Err(e) ==> e matches WidgetError::NoCorespondingSignal(WidgetList::Keyboard, ServiceList::Keyboard),
    {
        match self.signals.find(&SignalNames::Keyboard) {
            Some(i) => Ok(i),
            None => Err(WidgetError::NoCorespondingSignal(WidgetList::Keyboard, ServiceList::Keyboard)),
        }
    }
}

#[derive(Clone, Copy, Debug, PartialEq, Eq, Structural)]
pub enum RootError {
    /// Drawing was asked for before the environment was set up.
    EnvironmentNotInit,
}

/// The surface size taken from a configure event: a zero dimension means that the
/// compositor leaves the choice to the client, which takes 256.
pub fn configured_size(width: u32, height: u32) -> (r: (u32, u32))
    ensures
        r.0 == if width == 0 { 256 } else { width },
        r.1 == if height == 0 { 256 } else { height },
{
    (if width == 0 { 256 } else { width }, if height == 0 { 256 } else { height })
}

pub open spec fn max_width(outputs: Seq<(u32, u32)>, k: int, start: int) -> int
    decreases k,
{
    if k <= 0 {
        start
    } else if outputs[k - 1].0 > max_width(outputs, k - 1, start) {
        outputs[k - 1].0 as int
    } else {
        max_width(outputs, k - 1, start)
    }
}

pub open spec fn min_height(outputs: Seq<(u32, u32)>, k: int, start: int) -> int
    decreases k,
{
    if k <= 0 {
        start
    } else if (outputs[k - 1].1 as int) < min_height(outputs, k - 1, start) {
        outputs[k - 1].1 as int
    } else {
        min_height(outputs, k - 1, start)
    }
}

/// Size of the bar's surface: as wide as the widest output (at least one pixel), as tall as
/// the bar (at least one pixel, at most `u32::MAX`) but no taller than the lowest output.
pub fn surface_size(bar_height: usize, outputs: &Vec<(u32, u32)>) -> (r: (u32, u32))
    ensures
        r.0 == max_width(outputs@, outputs@.len() as int, 1),
        r.1 == min_height(
            outputs@,
            outputs@.len() as int,
            if bar_height == 0 { 1 } else if bar_height > u32::MAX { u32::MAX as int } else { bar_height as int },
        ),
{
    let mut width: u32 = 1;
    let mut height: u32 = if bar_height == 0 {
        1
    } else if bar_height > u32::MAX as usize {
        u32::MAX
    } else {
        bar_height as u32
    };
    let ghost h0 = height as int;
    let mut i: usize = 0;
    while i < outputs.len()
        invariant
            i <= outputs@.len(),
            width == max_width(outputs@, i as int, 1),
            height == min_height(outputs@, i as int, h0),
        decreases outputs@.len() - i,
    {
        if outputs[i].0 > width {
            width = outputs[i].0;
        }
        if outputs[i].1 < height {
            height = outputs[i].1;
        }
        i = i + 1;
    }
    (width, height)
}

} // verus!
