//! When battery-backed RAM is due to be written out, and the record of the last session.
use vstd::prelude::*;
use crate::clock::host_now_nanos;
use crate::domain::cartridge::{Cartridge, has_battery_type, cartridge_type_of};

verus! {

/// Tracks how long cartridge RAM has gone unchanged, so that it is saved only after
/// `inactivity_ns` nanoseconds without a new change. Times are host nanoseconds.
#[derive(Debug)]
pub struct SaveManager {
    pub inactivity_ns: u64,
    pub last_dirty_at: Option<u64>,
    pub last_dirty_generation: u64,
}

/// `now - then`, or 0 when the clock reads earlier than `then`.
pub open spec fn elapsed(now: u64, then: u64) -> int {
    if now >= then { now - then } else { 0 }
}

impl SaveManager {
    /// The manager after looking at RAM that is `dirty` with change counter `generation` at
    /// time `now`, and whether a save is due: clean RAM forgets the timer; a new change
    /// restarts it; a save is due once the RAM has been unchanged for the inactivity period.
    pub open spec fn poll_spec(self, now: u64, dirty: bool, generation: u64) -> (SaveManager, bool) {
        if !dirty {
            (SaveManager { last_dirty_at: None, ..self }, false)
        } else {
            let watched = if self.last_dirty_generation != generation {
                SaveManager { last_dirty_generation: generation, last_dirty_at: Some(now), ..self }
            } else {
                self
            };
            let due = match watched.last_dirty_at {
                Some(t) => elapsed(now, t) >= watched.inactivity_ns,
                None => false,
            };
            (watched, due)
        }
    }

    pub fn new(inactivity_ns: u64) -> (m: Self)
        ensures
            m == (SaveManager { inactivity_ns, last_dirty_at: None, last_dirty_generation: 0 }),
    {
        SaveManager { inactivity_ns, last_dirty_at: None, last_dirty_generation: 0 }
    }

    /// Looks at the cartridge's RAM at time `now` and says whether it is due to be saved.
    /// After a successful save the caller reports it with `complete_flush`.
    pub fn maybe_flush_at(&mut self, now: u64, cartridge: &Cartridge) -> (due: bool)
        ensures
            (*final(self), due) == old(self).poll_spec(now, cartridge.ram_dirty, cartridge.ram_dirty_generation),
    {
        if !cartridge.is_ram_dirty() {
            self.last_dirty_at = None;
            return false;
        }
        let generation = cartridge.ram_dirty_generation();
        if self.last_dirty_generation != generation {
            self.last_dirty_generation = generation;
            self.last_dirty_at = Some(now);
        }
        match self.last_dirty_at {
            Some(dirty_at) => {
                let waited = if now >= dirty_at { now - dirty_at } else { 0 };
                waited >= self.inactivity_ns
            },
            None => false,
        }
    }

    /// Whether RAM has unsaved changes, so that a save requested now has work to do.
    pub fn flush_now(&self, cartridge: &Cartridge) -> (due: bool)
        ensures
            due == cartridge.ram_dirty,
    {
        cartridge.is_ram_dirty()
    }

    /// Records a completed save: the RAM is clean and the inactivity timer stops.
    pub fn complete_flush(&mut self, cartridge: &mut Cartridge)
        ensures
            *final(self) == (SaveManager { last_dirty_at: None, ..*old(self) }),
            !final(cartridge).ram_dirty,
            final(cartridge).ram_dirty_generation == old(cartridge).ram_dirty_generation,
            final(cartridge).ext_ram == old(cartridge).ext_ram,
            final(cartridge).bytes == old(cartridge).bytes,
            final(cartridge).header == old(cartridge).header,
    {
        cartridge.clear_ram_dirty();
        self.last_dirty_at = None;
    }
}

/// RAM that changes at time `t0` and is then left alone is due to be saved at the first poll
/// at least the inactivity period later, and not before.
pub proof fn lemma_save_due_after_inactivity(m: SaveManager, generation: u64, t0: u64, t1: u64)
    requires
        m.last_dirty_generation != generation,
        t0 <= t1,
    ensures
        ({
            let (m1, due0) = m.poll_spec(t0, true, generation);
            let (m2, due1) = m1.poll_spec(t1, true, generation);
            &&& due0 == (m.inactivity_ns == 0)
            &&& due1 == (t1 - t0 >= m.inactivity_ns)
            &&& m2 == m1
        }),
{
}

/// Whether the cartridge keeps its RAM across power-off: a battery and some RAM.
pub open spec fn keeps_ram(c: &Cartridge) -> bool {
    has_battery_type(cartridge_type_of(c.header.cartridge_type)) && c.ext_ram@.len() > 0
}

/// The RAM image to write to the save file, if the cartridge keeps its RAM.
pub fn battery_save_data(cartridge: &Cartridge) -> (r: Option<&[u8]>)
    ensures
        keeps_ram(cartridge) ==> r is Some && r->Some_0@ == cartridge.ext_ram@,
        !keeps_ram(cartridge) ==> r is None,
{
    if !cartridge.has_battery() || !cartridge.has_ram() {
        return None;
    }
    Some(cartridge.ram())
}

/// Which ROM was running when the emulator last closed, with a time stamp.
#[derive(Debug, Clone)]
pub struct AutoResumeMetadata {
    pub rom_path: String,
    pub state_path: Option<String>,
    pub saved_at_unix: u64,
}

pub const NANOS_PER_SECOND: u128 = 1_000_000_000;

impl AutoResumeMetadata {
    /// The record for `rom_path`, stamped with the host clock in whole seconds since the Unix
    /// epoch.
    pub fn new(rom_path: String) -> (m: Self)
        ensures
            m.rom_path@ == rom_path@,
            m.state_path is None,
    {
        let secs = host_now_nanos() / NANOS_PER_SECOND;
        let saved_at_unix: u64 = if secs > u64::MAX as u128 { u64::MAX } else { secs as u64 };
        AutoResumeMetadata { rom_path, state_path: None, saved_at_unix }
    }
}

} // verus!
