use vstd::prelude::*;
use vstd::string::StringExecFns;

use crate::color::{hex_char, hex_digit};
use crate::root::{env_keyboard_index, lemma_first_keyboard, Environment};
use crate::signals::{matching, replay_of, SignalNames, SignalValue, Signals, ValueKind};
use crate::widgets::{ServiceList, WidgetError, WidgetList};

verus! {

/// The decimal digits of `n`, most significant first.
pub open spec fn decimal(n: nat) -> Seq<char>
    decreases n,
{
    if n < 10 {
        seq![hex_char(n as int)]
    } else {
        decimal(n / 10).push(hex_char((n % 10) as int))
    }
}

/// Appends the decimal digits of `n`.
pub fn push_decimal(s: &mut String, n: u128)
    ensures
        final(s)@ == old(s)@ + decimal(n as nat),
    decreases n,
{
    if n >= 10 {
        push_decimal(s, n / 10);
    }
    s.append(hex_digit((n % 10) as u8));
    proof {
        if n >= 10 {
            assert(decimal(n as nat) == decimal((n / 10) as nat).push(hex_char((n % 10) as int)));
        }
    }
}

/// `n` followed by a percent sign, as shown by the battery and CPU widgets.
pub fn percent_text(n: u128) -> (s: String)
    ensures
        s@ == decimal(n as nat).push('%'),
{
    let mut s = String::new();
    push_decimal(&mut s, n);
    s.append("%");
    proof {
        reveal_strlit("%");
        assert(s@ =~= decimal(n as nat).push('%'));
    }
    s
}

/// Text of the CPU widget: the usage in percent, or `ERR` without a reading.
pub fn cpu_text(usage: Option<u128>) -> (s: String)
    ensures
        usage matches Some(n) ==> s@ == decimal(n as nat).push('%'),
        usage is None ==> s@ == seq!['E', 'R', 'R'],
{
    match usage {
        Some(n) => percent_text(n),
        None => {
            let s = String::from_str("ERR");
            proof {
                reveal_strlit("ERR");
            }
            s
        },
    }
}

/// Settings of a background service.
#[derive(Clone, Copy, Debug)]
pub struct ProcessSettings {
    /// Least time between two polls, in milliseconds.
    pub update_rate: i64,
}

pub fn default_update_rate() -> (r: i64)
    ensures
        r == 1000,
{
    1000
}

impl ProcessSettings {
    pub fn default() -> (s: ProcessSettings)
        ensures
            s.update_rate == 1000,
    {
        ProcessSettings { update_rate: default_update_rate() }
    }
}

/// The clock's default strftime format: hours and minutes.
pub fn default_format() -> (s: String)
    ensures
        s@ == seq!['%', 'H', ':', '%', 'M'],
{
    let s = String::from_str("%H:%M");
    proof {
        reveal_strlit("%H:%M");
    }
    s
}

/// Errors of background services.
#[derive(Debug)]
pub enum ServiceError {
    /// The named service ran before it was bound to an environment.
    RunWithNoEnv(String),
    /// The named service failed; the second field says how.
    Custom(String, String),
}

/// The errors of background processes are those of services.
pub type ProcessError = ServiceError;

/// Whether at least `rate` milliseconds separate `last` from `now`.
pub open spec fn due(last: Option<i64>, now: i64, rate: i64) -> bool {
    match last {
        None => true,
        Some(t) => now - t >= rate,
    }
}

/// Gate that lets a service poll at most once per `rate` milliseconds.
pub struct Cooldown {
    rate: i64,
    last: Option<i64>,
}

impl Cooldown {
    pub closed spec fn rate_ms(self) -> i64 {
        self.rate
    }

    pub closed spec fn last_poll(self) -> Option<i64> {
        self.last
    }

    /// A gate that lets the first poll through.
    pub fn new(settings: ProcessSettings) -> (c: Cooldown)
        ensures
            c.rate_ms() == settings.update_rate,
            c.last_poll() is None,
    {
        Cooldown { rate: settings.update_rate, last: None }
    }

    /// Whether a poll at time `now` may run; when it may, `now` becomes the last poll.
    pub fn ready_at(&mut self, now: i64) -> (r: bool)
        ensures
            r == due(old(self).last_poll(), now, old(self).rate_ms()),
            final(self).rate_ms() == old(self).rate_ms(),
            r ==> final(self).last_poll() == Some(now),
            !r ==> final(self).last_poll() == old(self).last_poll(),
    {
        let go = match self.last {
            None => true,
            Some(t) => (now as i128) - (t as i128) >= self.rate as i128,
        };
        if go {
            self.last = Some(now);
        }
        go
    }
}

/// The name shown for a keyboard layout: the first mapping for it, or the layout itself.
pub open spec fn shown_layout(mappings: Seq<(Seq<char>, Seq<char>)>, layout: Seq<char>) -> Seq<char>
    decreases mappings.len(),
{
    if mappings.len() == 0 {
        layout
    } else if mappings[0].0 == layout {
        mappings[0].1
    } else {
        shown_layout(mappings.drop_first(), layout)
    }
}

pub open spec fn mapping_view(m: Seq<(String, String)>) -> Seq<(Seq<char>, Seq<char>)> {
    Seq::new(m.len(), |i: int| (m[i].0@, m[i].1@))
}

/// Looks a layout up in the display mappings.
pub fn layout_display_name(mappings: &Vec<(String, String)>, layout: &String) -> (r: String)
    ensures
        r@ == shown_layout(mapping_view(mappings@), layout@),
{
    let mut i: usize = 0;
    assert(mapping_view(mappings@).subrange(0, mappings@.len() as int) =~= mapping_view(mappings@));
    while i < mappings.len()
        invariant
            i <= mappings@.len(),
            shown_layout(mapping_view(mappings@), layout@) == shown_layout(
                mapping_view(mappings@).subrange(i as int, mappings@.len() as int),
                layout@,
            ),
        decreases mappings@.len() - i,
    {
        let ghost rest = mapping_view(mappings@).subrange(i as int, mappings@.len() as int);
        assert(rest.drop_first() =~= mapping_view(mappings@).subrange(i + 1, mappings@.len() as int));
        if mappings[i].0 == *layout {
            return mappings[i].1.clone();
        }
        i = i + 1;
    }
    layout.clone()
}

/// Keeps the last keyboard layout seen and publishes changes on a signal.
pub struct LayoutTracker {
    last: String,
}

impl LayoutTracker {
    pub closed spec fn last_layout(self) -> Seq<char> {
        self.last@
    }

    pub fn new() -> (t: LayoutTracker)
        ensures
            t.last_layout().len() == 0,
    {
        LayoutTracker { last: String::new() }
    }

    /// Records the current layout. When it differs from the last one it is emitted on
    /// signal `i` of `signals`, and the listeners that receive it are returned.
    pub fn observe(&mut self, current: String, signals: &mut Signals, i: usize) -> (r: Option<Vec<usize>>)
        requires
            i < old(signals).names().len(),
        ensures
            r is Some <==> current@ != old(self).last_layout(),
            final(self).last_layout() == current@,
            r is None ==> *final(signals) == *old(signals),
            r is Some ==> {
                &&& final(signals).names() == old(signals).names()
                &&& final(signals).signal(i as int).last() == Some(SignalValue::Text(current))
                &&& final(signals).signal(i as int).listening() == old(signals).signal(i as int).listening()
                &&& r->Some_0@ == matching(
                    old(signals).signal(i as int).listening(),
                    ValueKind::Text,
                    old(signals).signal(i as int).listening().len() as int,
                )
                &&& forall|j: int| 0 <= j < old(signals).names().len() && j != i ==> final(signals).signal(j) == old(signals).signal(j)
            },
    {
        if current == self.last {
            self.last = current;
            return None;
        }
        let listeners = signals.emit_on(i, &current);
        self.last = current;
        Some(listeners)
    }
}

/// The keyboard-layout indicator's logic: it listens for layout names on the keyboard
/// signal and shows each one through its display mappings.
pub struct KeyboardIndicator {
    mappings: Vec<(String, String)>,
    listener: Option<usize>,
}

impl KeyboardIndicator {
    pub closed spec fn view_mappings(self) -> Seq<(Seq<char>, Seq<char>)> {
        mapping_view(self.mappings@)
    }

    pub closed spec fn listener(self) -> Option<usize> {
        self.listener
    }

    pub fn new(mappings: Vec<(String, String)>) -> (k: KeyboardIndicator)
        ensures
            k.view_mappings() == mapping_view(mappings@),
            k.listener() is None,
    {
        KeyboardIndicator { mappings, listener: None }
    }

    /// Connects to the keyboard signal of `env`. Fails when no service created it; else
    /// returns what to show for a layout the signal already holds.
    pub fn init(&mut self, env: &mut Environment) -> (r: Result<Option<String>, WidgetError>)
        ensures
            final(self).view_mappings() == old(self).view_mappings(),
            r is Err <==> !exists|i: int|
                0 <= i < old(env).signals.names().len() && old(env).signals.names()[i].same_as(SignalNames::Keyboard),
            r matches Err(e) ==> e matches WidgetError::NoCorespondingSignal(WidgetList::Keyboard, ServiceList::Keyboard),
            r is Err ==> *final(env) == *old(env) && *final(self) == *old(self),
            r is Ok ==> final(self).listener() is Some,
            r matches Ok(shown) ==> {
                let i = env_keyboard_index(*old(env));
                match replay_of(old(env).signals.signal(i).last(), ValueKind::Text) {
                    Some(SignalValue::Text(layout)) => shown matches Some(s) && s@ == shown_layout(old(self).view_mappings(), layout@),
                    _ => shown is None,
                }
            },
    {
        let i = match env.keyboard_signal() {
            Ok(i) => i,
            Err(e) => return Err(e),
        };
        proof {
            assert(env_keyboard_index(*old(env)) == i) by {
                lemma_first_keyboard(*old(env), i as int);
            }
        }
        let (listener, replay) = env.signals.connect_on(i, ValueKind::Text);
        self.listener = Some(listener);
        match replay {
            Some(SignalValue::Text(layout)) => Ok(Some(layout_display_name(&self.mappings, &layout))),
            _ => Ok(None),
        }
    }

    /// Index of the indicator's listener on the keyboard signal, once connected.
    pub fn listener_index(&self) -> (r: Option<usize>)
        ensures
            r == self.listener(),
    {
        self.listener
    }

    /// What to show for a value received on the keyboard signal: its display name when it
    /// is a layout name; other kinds of value are ignored.
    pub fn receive(&self, value: &SignalValue) -> (r: Option<String>)
        ensures
            value is Text <==> r is Some,
            r matches Some(s) ==> s@ == shown_layout(self.view_mappings(), value->Text_0@),
    {
        match value {
            SignalValue::Text(layout) => Some(layout_display_name(&self.mappings, layout)),
            _ => None,
        }
    }
}

} // verus!
