use vstd::prelude::*;

verus! {

/// Runtime effects collected from terminal callbacks.
#[derive(Debug, Clone, PartialEq, Eq)]
pub enum RuntimeEffect {
    /// Bell sequence was received.
    Bell,
    /// Terminal title changed, including being cleared.
    TitleChanged(Option<String>),
}

/// Options for installing the callback behavior on a terminal.
#[derive(Debug, Clone, Copy, PartialEq, Eq)]
pub struct InstallOptions {
    /// XTVERSION response string to report.
    pub xtversion: &'static str,
}

/// Terminal size reported to size queries (XTWINOPS).
#[derive(Debug, Clone, Copy, PartialEq, Eq, Structural)]
pub struct SizeReportSize {
    /// Rows of the terminal.
    pub rows: u16,
    /// Columns of the terminal.
    pub columns: u16,
    /// Cell width in pixels.
    pub cell_width: u32,
    /// Cell height in pixels.
    pub cell_height: u32,
}

/// Primary device attributes (DA1): conformance level and feature codes.
#[derive(Debug, Clone, PartialEq, Eq)]
pub struct PrimaryDeviceAttributes {
    /// Conformance level (62 is a VT220-class terminal).
    pub conformance_level: u16,
    /// Reported feature codes.
    pub features: Vec<u16>,
}

/// Secondary device attributes (DA2).
#[derive(Debug, Clone, Copy, PartialEq, Eq, Structural)]
pub struct SecondaryDeviceAttributes {
    /// Terminal type code.
    pub device_type: u16,
    /// Firmware version.
    pub firmware_version: u16,
    /// ROM cartridge registration number.
    pub rom_cartridge: u16,
}

/// Tertiary device attributes (DA3).
#[derive(Debug, Clone, Copy, PartialEq, Eq, Structural)]
pub struct TertiaryDeviceAttributes {
    /// Unit identifier.
    pub unit_id: u32,
}

/// Device attributes reported to DA queries.
#[derive(Debug, Clone, PartialEq, Eq)]
pub struct DeviceAttributes {
    /// Primary attributes.
    pub primary: PrimaryDeviceAttributes,
    /// Secondary attributes.
    pub secondary: SecondaryDeviceAttributes,
    /// Tertiary attributes.
    pub tertiary: TertiaryDeviceAttributes,
}

/// The device attributes this adapter reports: a VT220-class terminal
/// (level 62) with 132 columns (1), selective erase (6) and ANSI color (22);
/// device type 1, firmware 1, no cartridge; unit id 0.
pub open spec fn is_default_device_attributes(attributes: DeviceAttributes) -> bool {
    &&& attributes.primary.conformance_level == 62
    &&& attributes.primary.features@ == seq![1u16, 6u16, 22u16]
    &&& attributes.secondary == (SecondaryDeviceAttributes {
        device_type: 1,
        firmware_version: 1,
        rom_cartridge: 0,
    })
    &&& attributes.tertiary == (TertiaryDeviceAttributes { unit_id: 0 })
}

/// Build the reported device attributes.
pub fn default_device_attributes() -> (attributes: DeviceAttributes)
    ensures
        is_default_device_attributes(attributes),
{
    let mut features: Vec<u16> = Vec::with_capacity(3);
    features.push(1);
    features.push(6);
    features.push(22);
    assert(features@ =~= seq![1u16, 6u16, 22u16]);
    DeviceAttributes {
        primary: PrimaryDeviceAttributes { conformance_level: 62, features },
        secondary: SecondaryDeviceAttributes {
            device_type: 1,
            firmware_version: 1,
            rom_cartridge: 0,
        },
        tertiary: TertiaryDeviceAttributes { unit_id: 0 },
    }
}

/// The title effect that a title lookup result produces: the title when the
/// lookup gave a non-empty one, a cleared title otherwise.
pub open spec fn title_effect_matches(effect: RuntimeEffect, title: Option<Seq<char>>) -> bool {
    match effect {
        RuntimeEffect::TitleChanged(Some(t)) => title matches Some(s) && s.len() > 0 && t@ == s,
        RuntimeEffect::TitleChanged(None) => title is None || title->0.len() == 0,
        RuntimeEffect::Bell => false,
    }
}

/// The PTY write queue after `data` was written: an empty write leaves it
/// as it was, any other write joins its end.
pub open spec fn queue_after_write(queue: Seq<Seq<u8>>, data: Seq<u8>) -> Seq<Seq<u8>> {
    if data.len() == 0 {
        queue
    } else {
        queue.push(data)
    }
}

/// The non-empty writes among `writes`, in the order they were made.
pub open spec fn non_empty_writes(writes: Seq<Seq<u8>>) -> Seq<Seq<u8>>
    decreases writes.len(),
{
    if writes.len() == 0 {
        Seq::empty()
    } else {
        queue_after_write(non_empty_writes(writes.drop_last()), writes.last())
    }
}

/// The queue after the writes `writes` were made one after another, from
/// state `states[0]` to state `states[k]`, holds the starting queue followed
/// by the non-empty writes among the first `k`.
proof fn lemma_queue_after_writes(states: Seq<TerminalCallbacks>, writes: Seq<Seq<u8>>, k: int)
    requires
        states.len() == writes.len() + 1,
        0 <= k <= writes.len(),
        forall|i: int|
            0 <= i < writes.len() ==> #[trigger] states[i + 1].pty_writes() == queue_after_write(
                states[i].pty_writes(),
                writes[i],
            ),
    ensures
        states[k].pty_writes() == states[0].pty_writes() + non_empty_writes(writes.take(k)),
    decreases k,
{
    if k == 0 {
        assert(writes.take(0) =~= Seq::<Seq<u8>>::empty());
        assert(states[0].pty_writes() + Seq::<Seq<u8>>::empty() =~= states[0].pty_writes());
    } else {
        lemma_queue_after_writes(states, writes, k - 1);
        assert(writes.take(k).drop_last() =~= writes.take(k - 1));
        assert(writes.take(k).last() == writes[k - 1]);
        let before = non_empty_writes(writes.take(k - 1));
        let j = k - 1;
        assert(states[j + 1].pty_writes() == queue_after_write(states[j].pty_writes(), writes[j]));
        assert(j + 1 == k);
        if writes[k - 1].len() > 0 {
            assert((states[0].pty_writes() + before).push(writes[k - 1]) =~= states[0].pty_writes()
                + before.push(writes[k - 1]));
        }
    }
}

/// Draining the PTY queue of callbacks that were created or last drained and
/// then received the writes `writes`, one after another, gives back exactly
/// the non-empty ones among them, in the order they arrived.
pub proof fn law_drain_returns_every_non_empty_write(
    states: Seq<TerminalCallbacks>,
    writes: Seq<Seq<u8>>,
    drained: Seq<Seq<u8>>,
)
    requires
        states.len() == writes.len() + 1,
        states[0].pty_writes().len() == 0,
        forall|i: int|
            0 <= i < writes.len() ==> #[trigger] states[i + 1].pty_writes() == queue_after_write(
                states[i].pty_writes(),
                writes[i],
            ),
        drained == states.last().pty_writes(),
    ensures
        drained == non_empty_writes(writes),
        forall|i: int| 0 <= i < drained.len() ==> (#[trigger] drained[i]).len() > 0,
{
    lemma_queue_after_writes(states, writes, writes.len() as int);
    assert(writes.take(writes.len() as int) =~= writes);
    assert(states[0].pty_writes() =~= Seq::<Seq<u8>>::empty());
    assert(Seq::<Seq<u8>>::empty() + non_empty_writes(writes) =~= non_empty_writes(writes));
    lemma_non_empty_writes_are_non_empty(writes);
}

proof fn lemma_non_empty_writes_are_non_empty(writes: Seq<Seq<u8>>)
    ensures
        forall|i: int|
            0 <= i < non_empty_writes(writes).len() ==> (#[trigger] non_empty_writes(writes)[i]).len()
                > 0,
    decreases writes.len(),
{
    if writes.len() > 0 {
        let earlier = non_empty_writes(writes.drop_last());
        lemma_non_empty_writes_are_non_empty(writes.drop_last());
        if writes.last().len() > 0 {
            assert forall|i: int|
                0 <= i < non_empty_writes(writes).len() implies (#[trigger] non_empty_writes(
                writes,
            )[i]).len() > 0 by {
                if i < earlier.len() {
                    assert(non_empty_writes(writes)[i] == earlier[i]);
                }
            }
        }
    }
}

/// The size that size queries report.
#[derive(Debug)]
struct ReportedSize {
    columns: u16,
    rows: u16,
    cell_width_px: u32,
    cell_height_px: u32,
}

impl ReportedSize {
    /// Reported cell sizes are never zero.
    #[verifier::type_invariant]
    spec fn cell_size_positive(&self) -> bool {
        self.cell_width_px >= 1 && self.cell_height_px >= 1
    }
}

/// Callback queue and size state for a terminal instance: what the
/// terminal's callbacks leave behind for the editor to collect.
#[derive(Debug)]
pub struct TerminalCallbacks {
    pending_pty_writes: Vec<Vec<u8>>,
    pending_effects: Vec<RuntimeEffect>,
    size: ReportedSize,
    options: Option<InstallOptions>,
}

impl TerminalCallbacks {

    /// Queued PTY writes, oldest first.
    pub closed spec fn pty_writes(&self) -> Seq<Seq<u8>> {
        self.pending_pty_writes@.map_values(|w: Vec<u8>| w@)
    }

    /// Queued runtime effects, oldest first.
    pub closed spec fn effects(&self) -> Seq<RuntimeEffect> {
        self.pending_effects@
    }

    /// The size that size queries report.
    pub closed spec fn size(&self) -> SizeReportSize {
        SizeReportSize {
            rows: self.size.rows,
            columns: self.size.columns,
            cell_width: self.size.cell_width_px,
            cell_height: self.size.cell_height_px,
        }
    }

    /// The options given at installation, if installed.
    pub closed spec fn installed(&self) -> Option<InstallOptions> {
        self.options
    }

    /// Create a callback queue for a terminal of the given size, with
    /// one-pixel cells and nothing queued.
    pub fn new(columns: u16, rows: u16) -> (callbacks: Self)
        ensures
            callbacks.pty_writes().len() == 0,
            callbacks.effects().len() == 0,
            callbacks.size() == (SizeReportSize {
                rows,
                columns,
                cell_width: 1,
                cell_height: 1,
            }),
            callbacks.installed() is None,
    {
        TerminalCallbacks {
            pending_pty_writes: Vec::new(),
            pending_effects: Vec::new(),
            size: ReportedSize { columns, rows, cell_width_px: 1, cell_height_px: 1 },
            options: None,
        }
    }

    /// Install the callback behavior; from now on XTVERSION queries are
    /// answered with `options.xtversion`.
    pub fn install(&mut self, options: InstallOptions)
        ensures
            final(self).installed() == Some(options),
            final(self).pty_writes() == old(self).pty_writes(),
            final(self).effects() == old(self).effects(),
            final(self).size() == old(self).size(),
    {
        self.options = Some(options);
    }

    /// Update the terminal size reported by the size callback; cell sizes
    /// below one pixel are reported as one pixel.
    pub fn update_size(&mut self, columns: u16, rows: u16, cell_width_px: u32, cell_height_px: u32)
        ensures
            final(self).size() == (SizeReportSize {
                rows,
                columns,
                cell_width: if cell_width_px >= 1 { cell_width_px } else { 1 },
                cell_height: if cell_height_px >= 1 { cell_height_px } else { 1 },
            }),
            final(self).pty_writes() == old(self).pty_writes(),
            final(self).effects() == old(self).effects(),
            final(self).installed() == old(self).installed(),
    {
        self.size = ReportedSize {
            columns,
            rows,
            cell_width_px: if cell_width_px >= 1 { cell_width_px } else { 1 },
            cell_height_px: if cell_height_px >= 1 { cell_height_px } else { 1 },
        };
    }

    /// Drain queued PTY writes: all of them, oldest first, leaving none.
    pub fn drain_pty_writes(&mut self) -> (writes: Vec<Vec<u8>>)
        ensures
            writes@.map_values(|w: Vec<u8>| w@) == old(self).pty_writes(),
            final(self).pty_writes().len() == 0,
            final(self).effects() == old(self).effects(),
            final(self).size() == old(self).size(),
            final(self).installed() == old(self).installed(),
    {
        let mut writes: Vec<Vec<u8>> = Vec::new();
        std::mem::swap(&mut writes, &mut self.pending_pty_writes);
        proof {
            assert(Seq::<Vec<u8>>::empty().map_values(|w: Vec<u8>| w@) =~= Seq::<Seq<u8>>::empty());
        }
        writes
    }

    /// Drain queued runtime effects: all of them, oldest first, leaving none.
    pub fn drain_effects(&mut self) -> (effects: Vec<RuntimeEffect>)
        ensures
            effects@ == old(self).effects(),
            final(self).effects().len() == 0,
            final(self).pty_writes() == old(self).pty_writes(),
            final(self).size() == old(self).size(),
            final(self).installed() == old(self).installed(),
    {
        let mut effects: Vec<RuntimeEffect> = Vec::new();
        std::mem::swap(&mut effects, &mut self.pending_effects);
        effects
    }

    fn push_pty_write(&mut self, bytes: &[u8])
        ensures
            final(self).pty_writes() == queue_after_write(old(self).pty_writes(), bytes@),
            final(self).effects() == old(self).effects(),
            final(self).size() == old(self).size(),
            final(self).installed() == old(self).installed(),
    {
        if bytes.len() == 0 {
            return;
        }
        let copy = vstd::slice::slice_to_vec(bytes);
        self.pending_pty_writes.push(copy);
        proof {
            assert(self.pending_pty_writes@.map_values(|w: Vec<u8>| w@) =~= old(self).pending_pty_writes@.map_values(|w: Vec<u8>| w@).push(bytes@));
        }
    }

    fn push_effect(&mut self, effect: RuntimeEffect)
        ensures
            final(self).effects() == old(self).effects().push(effect),
            final(self).pty_writes() == old(self).pty_writes(),
            final(self).size() == old(self).size(),
            final(self).installed() == old(self).installed(),
    {
        self.pending_effects.push(effect);
    }

    /// The terminal writes bytes back to the PTY (a reply to a query): the
    /// bytes are queued, unless there are none.
    pub fn on_pty_write(&mut self, data: &[u8])
        ensures
            final(self).pty_writes() == queue_after_write(old(self).pty_writes(), data@),
            data@.len() == 0 ==> final(self).pty_writes() == old(self).pty_writes(),
            data@.len() > 0 ==> final(self).pty_writes() == old(self).pty_writes().push(data@),
            final(self).effects() == old(self).effects(),
            final(self).size() == old(self).size(),
            final(self).installed() == old(self).installed(),
    {
        self.push_pty_write(data);
    }

    /// The terminal received a bell: a bell effect is queued.
    pub fn on_bell(&mut self)
        ensures
            final(self).effects() == old(self).effects().push(RuntimeEffect::Bell),
            final(self).pty_writes() == old(self).pty_writes(),
            final(self).size() == old(self).size(),
            final(self).installed() == old(self).installed(),
    {
        self.push_effect(RuntimeEffect::Bell);
    }

    /// The terminal's title changed; `title` is what looking the title up
    /// gave, `None` when the lookup failed. A title effect is queued that
    /// carries the title, or no title when it is missing or empty.
    pub fn on_title_changed(&mut self, title: Option<&str>)
        ensures
            final(self).effects().len() == old(self).effects().len() + 1,
            final(self).effects().subrange(0, old(self).effects().len() as int) == old(
                self,
            ).effects(),
            title_effect_matches(
                final(self).effects().last(),
                match title {
                    Some(t) => Some(t@),
                    None => None,
                },
            ),
            title matches Some(t) ==> (t@.len() > 0 ==> (final(self).effects().last() matches
                RuntimeEffect::TitleChanged(Some(s)) && s@ == t@)),
            title matches Some(t) ==> (t@.len() == 0 ==> final(self).effects().last()
                == RuntimeEffect::TitleChanged(None)),
            title is None ==> final(self).effects().last() == RuntimeEffect::TitleChanged(None),
            final(self).pty_writes() == old(self).pty_writes(),
            final(self).size() == old(self).size(),
            final(self).installed() == old(self).installed(),
    {
        let effect = match title {
            Some(t) => if t.is_empty() {
                RuntimeEffect::TitleChanged(None)
            } else {
                RuntimeEffect::TitleChanged(Some(t.to_owned()))
            },
            None => RuntimeEffect::TitleChanged(None),
        };
        self.push_effect(effect);
        proof {
            assert(self.effects().subrange(0, old(self).effects().len() as int) =~= old(self).effects());
        }
    }

    /// Answer to an ENQ: nothing, the terminal stays silent.
    pub fn on_enquiry(&self) -> (answer: Option<Vec<u8>>)
        ensures
            answer is None,
    {
        None
    }

    /// Answer to an XTVERSION query: the installed version string.
    pub fn on_xtversion(&self) -> (version: Option<&'static str>)
        ensures
            version == (match self.installed() {
                Some(options) => Some(options.xtversion),
                None => None,
            }),
    {
        match self.options {
            Some(options) => Some(options.xtversion),
            None => None,
        }
    }

    /// Answer to a size query: the last size set, with cells at least one
    /// pixel wide and high.
    pub fn on_size(&self) -> (size: Option<SizeReportSize>)
        ensures
            size == Some(self.size()),
            self.size().cell_width >= 1,
            self.size().cell_height >= 1,
    {
        proof {
            use_type_invariant(&self.size);
        }
        Some(SizeReportSize {
            rows: self.size.rows,
            columns: self.size.columns,
            cell_width: self.size.cell_width_px,
            cell_height: self.size.cell_height_px,
        })
    }

    /// Answer to a device attributes query.
    pub fn on_device_attributes(&self) -> (attributes: Option<DeviceAttributes>)
        ensures
            attributes matches Some(a) && is_default_device_attributes(a),
    {
        Some(default_device_attributes())
    }
}

} // verus!
