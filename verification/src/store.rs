//! The indicator store: one display text per indicator, and the composed line.

use vstd::prelude::*;
use vstd::string::*;

verus! {

/// One independently refreshed piece of the status line.
#[derive(Clone, Copy, Debug, PartialEq, Eq, Structural)]
pub enum Indicator {
    Clock,
    Volume,
    Battery,
    Network,
}

/// The four display texts as mathematical sequences: the model of the store
/// and of a snapshot of it.
pub struct Readings {
    pub clock: Seq<char>,
    pub volume: Seq<char>,
    pub battery: Seq<char>,
    pub network: Seq<char>,
}

/// The delimiter between two neighbouring indicators of the composed line.
pub open spec fn delimiter() -> Seq<char> {
    seq![' ', '|', ' ']
}

/// The padding before the first and after the last indicator.
pub open spec fn padding() -> Seq<char> {
    seq![' ']
}

impl Readings {
    /// The text held for `which`.
    pub open spec fn get(self, which: Indicator) -> Seq<char> {
        match which {
            Indicator::Clock => self.clock,
            Indicator::Volume => self.volume,
            Indicator::Battery => self.battery,
            Indicator::Network => self.network,
        }
    }

    /// The readings with the text of `which` replaced by `value`.
    pub open spec fn with(self, which: Indicator, value: Seq<char>) -> Readings {
        match which {
            Indicator::Clock => Readings { clock: value, ..self },
            Indicator::Volume => Readings { volume: value, ..self },
            Indicator::Battery => Readings { battery: value, ..self },
            Indicator::Network => Readings { network: value, ..self },
        }
    }

    /// The readings after the writes of `writes` were applied in order.
    pub open spec fn after(self, writes: Seq<(Indicator, Seq<char>)>) -> Readings
        decreases writes.len(),
    {
        if writes.len() == 0 {
            self
        } else {
            self.after(writes.drop_last()).with(writes.last().0, writes.last().1)
        }
    }

    /// The status line: network, battery, volume, clock, delimited and padded.
    pub open spec fn composed(self) -> Seq<char> {
        padding() + self.network + delimiter() + self.battery + delimiter() + self.volume
            + delimiter() + self.clock + padding()
    }
}

/// The text every indicator shows before its first reading arrives, by
/// indicator.
pub open spec fn placeholder(which: Indicator) -> Seq<char> {
    match which {
        Indicator::Clock => "Time Loading..."@,
        Indicator::Volume => "Volume Loading..."@,
        Indicator::Battery => "Battery Loading..."@,
        Indicator::Network => "Wifi Loading..."@,
    }
}

/// The readings of a store that nothing was written to yet.
pub open spec fn placeholders() -> Readings {
    Readings {
        clock: placeholder(Indicator::Clock),
        volume: placeholder(Indicator::Volume),
        battery: placeholder(Indicator::Battery),
        network: placeholder(Indicator::Network),
    }
}

/// A copy of the four display texts taken at one moment.
#[derive(Clone, Debug, PartialEq, Eq)]
pub struct Snapshot {
    pub time: String,
    pub volume: String,
    pub battery: String,
    pub wifi: String,
}

impl View for Snapshot {
    type V = Readings;

    open spec fn view(&self) -> Readings {
        Readings {
            clock: self.time@,
            volume: self.volume@,
            battery: self.battery@,
            network: self.wifi@,
        }
    }
}

impl Snapshot {
    /// Composes the status line of this snapshot.
    pub fn compose(&self) -> (line: String)
        ensures
            line@ == self@.composed(),
    {
        proof {
            reveal_strlit(" ");
            reveal_strlit(" | ");
            assert(" "@ =~= padding());
            assert(" | "@ =~= delimiter());
        }
        let mut line = String::from_str(" ");
        line.append(self.wifi.as_str());
        line.append(" | ");
        line.append(self.battery.as_str());
        line.append(" | ");
        line.append(self.volume.as_str());
        line.append(" | ");
        line.append(self.time.as_str());
        line.append(" ");
        line
    }
}

/// The indicator store: the current display text of each indicator and the
/// polling period, in milliseconds, that each was configured with.
#[derive(Debug)]
pub struct StatusBar {
    pub time: String,
    pub volume: String,
    pub battery: String,
    pub wifi: String,
    pub time_update_period: u64,
    pub volume_update_period: u64,
    pub battery_update_period: u64,
    pub wifi_update_period: u64,
}

impl View for StatusBar {
    type V = Readings;

    open spec fn view(&self) -> Readings {
        Readings {
            clock: self.time@,
            volume: self.volume@,
            battery: self.battery@,
            network: self.wifi@,
        }
    }
}

impl StatusBar {
    /// The polling period configured for `which`, in milliseconds.
    pub open spec fn period(&self, which: Indicator) -> u64 {
        match which {
            Indicator::Clock => self.time_update_period,
            Indicator::Volume => self.volume_update_period,
            Indicator::Battery => self.battery_update_period,
            Indicator::Network => self.wifi_update_period,
        }
    }

    /// A store that shows the placeholders, with the given polling periods.
    pub fn new(
        time_update_period: u64,
        volume_update_period: u64,
        battery_update_period: u64,
        wifi_update_period: u64,
    ) -> (bar: StatusBar)
        ensures
            bar@ == placeholders(),
            bar.period(Indicator::Clock) == time_update_period,
            bar.period(Indicator::Volume) == volume_update_period,
            bar.period(Indicator::Battery) == battery_update_period,
            bar.period(Indicator::Network) == wifi_update_period,
    {
        StatusBar {
            time: String::from_str("Time Loading..."),
            volume: String::from_str("Volume Loading..."),
            battery: String::from_str("Battery Loading..."),
            wifi: String::from_str("Wifi Loading..."),
            time_update_period,
            volume_update_period,
            battery_update_period,
            wifi_update_period,
        }
    }

    /// The polling period of `which`, in milliseconds.
    pub fn update_period(&self, which: Indicator) -> (millis: u64)
        ensures
            millis == self.period(which),
    {
        match which {
            Indicator::Clock => self.time_update_period,
            Indicator::Volume => self.volume_update_period,
            Indicator::Battery => self.battery_update_period,
            Indicator::Network => self.wifi_update_period,
        }
    }

    /// The current display text of `which`.
    pub fn get(&self, which: Indicator) -> (text: &String)
        ensures
            text@ == self@.get(which),
    {
        match which {
            Indicator::Clock => &self.time,
            Indicator::Volume => &self.volume,
            Indicator::Battery => &self.battery,
            Indicator::Network => &self.wifi,
        }
    }

    /// Overwrites the display text of `which` and leaves everything else as
    /// it was.
    pub fn set(&mut self, which: Indicator, value: String)
        ensures
            final(self)@ == old(self)@.with(which, value@),
            forall|i: Indicator| final(self).period(i) == old(self).period(i),
    {
        match which {
            Indicator::Clock => {
                self.time = value;
            },
            Indicator::Volume => {
                self.volume = value;
            },
            Indicator::Battery => {
                self.battery = value;
            },
            Indicator::Network => {
                self.wifi = value;
            },
        }
    }

    /// Copies the four display texts out of the store.
    pub fn get_snapshot(&self) -> (snapshot: Snapshot)
        ensures
            snapshot@ == self@,
    {
        Snapshot {
            time: self.time.clone(),
            volume: self.volume.clone(),
            battery: self.battery.clone(),
            wifi: self.wifi.clone(),
        }
    }

    /// Composes the status line from the current display texts.
    pub fn render(&self) -> (line: String)
        ensures
            line@ == self@.composed(),
    {
        let snapshot = self.get_snapshot();
        snapshot.compose()
    }
}

/// A read is never a text of another indicator: after any sequence of writes,
/// the text held for `which` is the one it started with if no write named
/// `which`, and otherwise the value of the last write that named it.
pub proof fn lemma_reads_own_writes(
    start: Readings,
    writes: Seq<(Indicator, Seq<char>)>,
    which: Indicator,
)
    ensures
        (forall|k: int| 0 <= k < writes.len() ==> (#[trigger] writes[k]).0 != which)
            ==> start.after(writes).get(which) == start.get(which),
        (exists|k: int| 0 <= k < writes.len() && (#[trigger] writes[k]).0 == which) ==> exists|
            k: int,
        |
            0 <= k < writes.len() && (#[trigger] writes[k]).0 == which && writes[k].1
                == start.after(writes).get(which) && forall|j: int|
                k < j < writes.len() ==> (#[trigger] writes[j]).0 != which,
    decreases writes.len(),
{
    if writes.len() > 0 {
        let front = writes.drop_last();
        let last = writes.len() - 1;
        lemma_reads_own_writes(start, front, which);
        assert(forall|k: int| 0 <= k < front.len() ==> front[k] == writes[k]);
        if writes[last].0 == which {
            assert(writes[last].1 == start.after(writes).get(which));
        } else {
            assert(start.after(writes).get(which) == start.after(front).get(which));
            if exists|k: int| 0 <= k < writes.len() && (#[trigger] writes[k]).0 == which {
                let w = choose|k: int| 0 <= k < writes.len() && (#[trigger] writes[k]).0 == which;
                assert(w < front.len());
                assert(front[w].0 == which);
                let k = choose|k: int|
                    0 <= k < front.len() && (#[trigger] front[k]).0 == which && front[k].1
                        == start.after(front).get(which) && forall|j: int|
                        k < j < front.len() ==> (#[trigger] front[j]).0 != which;
                assert(writes[k].0 == which);
                assert forall|j: int| k < j < writes.len() implies (#[trigger] writes[j]).0
                    != which by {
                    if j < front.len() {
                        assert(front[j].0 != which);
                    }
                }
            }
        }
    }
}

/// Writes to one indicator leave the texts of the others alone.
pub proof fn lemma_write_keeps_others(
    start: Readings,
    written: Indicator,
    value: Seq<char>,
    other: Indicator,
)
    requires
        other != written,
    ensures
        start.with(written, value).get(other) == start.get(other),
        start.with(written, value).get(written) == value,
{
}

/// Two snapshots of a store that was not written to in between are equal.
pub proof fn lemma_snapshot_repeats(bar: StatusBar, first: Snapshot, second: Snapshot)
    requires
        first@ == bar@,
        second@ == bar@,
    ensures
        first@ == second@,
        first@.composed() == second@.composed(),
{
}

} // verus!
