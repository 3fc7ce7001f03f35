//! The machine: CPU, bus and PPU stepped together one frame at a time, plus a free-running
//! sound unit for audio output.
use vstd::prelude::*;
use crate::domain::apu::{Apu, FRAME_CYCLES, NoiseChannel, PulseChannel};
use crate::domain::bus::{Bus, BusView, StepTimes, fixed_step_times};
use crate::domain::cartridge::{Cartridge, cartridge_type_of};
use crate::domain::cpu::{Cpu, CpuError};
use crate::domain::cpu::exec::step_at;
use crate::domain::framebuffer::{Framebuffer, FRAME_SIZE};
use crate::domain::mbc::{MbcError, initial_view};
use crate::domain::ppu::{Ppu, PpuView};
use crate::domain::ppu::timing::ppu_step_spec;

verus! {

pub struct Emulator {
    pub booted: bool,
    pub framebuffer: Framebuffer,
    pub cpu: Cpu,
    pub bus: Option<Bus>,
    pub cpu_error: Option<CpuError>,
    pub ppu: Ppu,
    pub apu: Apu,
}

/// The machine state that a frame changes.
pub struct Machine {
    pub cpu: Cpu,
    pub bus: BusView,
    pub ppu: PpuView,
    pub frame: Seq<u8>,
    pub apu: Apu,
    pub booted: bool,
}

/// The host times one machine step sees: part 0 for the instruction's bus accesses, part 1
/// for the copies of the bus step that follows it.
pub type MachineTimes = spec_fn(nat) -> StepTimes;

/// Every clock reading of a machine step at host time 0.
pub open spec fn zero_machine_times() -> MachineTimes {
    |i: nat| fixed_step_times(0)
}

/// One instruction and everything clocked by it: the bus peripherals, the free-running
/// sound unit (left as it is when its noise period is zero) and the PPU; a boot ROM switched
/// off by the instruction marks the machine booted. Returns the cycles and whether a frame
/// completed. Its clock readings see the host times `t`.
pub open spec fn machine_step_at(m: Machine, t: MachineTimes) -> (Machine, Result<(u32, bool), CpuError>) {
    let (cpu, bus, r) = step_at(m.cpu, m.bus, t(0));
    match r {
        Err(e) => (Machine { cpu, bus, ..m }, Err(e)),
        Ok(cycles) => {
            let bus2 = bus.step_at(cycles, t(1));
            let apu = if m.apu.can_step() { m.apu.step_spec(cycles) } else { m.apu };
            let (ppu, frame, ready) = ppu_step_spec(m.ppu, bus2, m.frame, cycles);
            (
                Machine {
                    cpu,
                    bus: BusView { boot_rom_just_disabled: false, ..bus2 },
                    ppu,
                    frame,
                    apu,
                    booted: m.booted || bus2.boot_rom_just_disabled,
                },
                Ok((cycles, ready)),
            )
        },
    }
}

pub open spec fn machine_step_spec(m: Machine) -> (Machine, Result<(u32, bool), CpuError>) {
    machine_step_at(m, zero_machine_times())
}

/// Steps until a frame completes, an opcode is not implemented, or the cycle count (which
/// saturates) reaches `u32::MAX`; returns the cycles run. Step `n` of the frame (counting
/// from the `n` given) sees the host times `ts(n)`.
pub open spec fn run_frame_at(m: Machine, cycles: u32, ts: spec_fn(nat) -> MachineTimes, n: nat) -> (Machine, Result<u32, CpuError>)
    decreases u32::MAX - cycles,
{
    let (m2, r) = machine_step_at(m, ts(n));
    match r {
        Err(e) => (m2, Err(e)),
        Ok((step_cycles, ready)) => {
            let total = if cycles as int + step_cycles as int > u32::MAX { u32::MAX } else { (cycles + step_cycles) as u32 };
            if ready || total == u32::MAX || total <= cycles {
                (m2, Ok(total))
            } else {
                run_frame_at(m2, total, ts, n + 1)
            }
        },
    }
}

/// A frame with every clock reading at host time 0.
pub open spec fn run_frame_spec(m: Machine, cycles: u32) -> (Machine, Result<u32, CpuError>) {
    run_frame_at(m, cycles, |n: nat| zero_machine_times(), 0)
}

/// `ts` agrees with the host times `seen` of the steps taken so far.
spec fn extends(ts: spec_fn(nat) -> MachineTimes, seen: Seq<MachineTimes>) -> bool {
    forall|k: nat| k < seen.len() ==> #[trigger] ts(k) == seen[k as int]
}

impl Emulator {
    pub open spec fn wf(&self) -> bool {
        &&& self.framebuffer.wf()
        &&& self.ppu@.wf()
        &&& self.apu.wf()
        &&& (self.bus matches Some(b) ==> b@.wf())
    }

    pub open spec fn machine(&self) -> Machine
        recommends self.bus is Some,
    {
        Machine {
            cpu: self.cpu,
            bus: self.bus->Some_0@,
            ppu: self.ppu@,
            frame: self.framebuffer.pixels@,
            apu: self.apu,
            booted: self.booted,
        }
    }

    /// A machine without a cartridge.
    pub fn new() -> (e: Self)
        ensures
            e.wf(),
            !e.booted && e.bus is None && e.cpu_error is None,
            e.cpu == Cpu::initial(),
            e.ppu@ == Ppu::initial_view(),
            e.framebuffer.pixels@ == Seq::new(FRAME_SIZE as nat, |i: int| 0u8),
            !e.apu.sample_ready && e.apu.current_sample == 0,
            e.apu.frame_cycles == FRAME_CYCLES,
            e.apu.pulse_channel == PulseChannel::initial(),
            e.apu.noise_channel == NoiseChannel::initial(),
            e.apu.wave_channel.is_initial(),
    {
        Emulator {
            booted: false,
            framebuffer: Framebuffer::new(),
            cpu: Cpu::new(),
            bus: None,
            cpu_error: None,
            ppu: Ppu::new(),
            apu: Apu::new(),
        }
    }

    pub fn is_booted(&self) -> (r: bool)
        ensures r == self.booted,
    {
        self.booted
    }

    /// Inserts a cartridge without a boot ROM: the machine starts in its post-boot state.
    pub fn load_cartridge(&mut self, cartridge: Cartridge) -> (r: Result<(), MbcError>)
        requires
            old(self).wf(),
        ensures
            final(self).wf(),
            initial_view(cartridge_type_of(cartridge.header.cartridge_type)) is Some <==> r is Ok,
            r is Err ==> *final(self) == *old(self),
            r is Ok ==> final(self).booted && final(self).bus is Some && final(self).cpu == Cpu::post_boot()
                && final(self).cpu_error is None && final(self).ppu@ == Ppu::initial_view()
                && final(self).bus->Some_0@.cart == cartridge@,
    {
        self.load_cartridge_with_boot_rom(cartridge, None)
    }

    /// Inserts a cartridge, with an optional boot ROM. Without one the CPU and bus start in
    /// their post-boot state and the machine counts as booted.
    pub fn load_cartridge_with_boot_rom(&mut self, cartridge: Cartridge, boot_rom: Option<Vec<u8>>) -> (r: Result<(), MbcError>)
        requires
            old(self).wf(),
        ensures
            final(self).wf(),
            initial_view(cartridge_type_of(cartridge.header.cartridge_type)) is Some <==> r is Ok,
            r is Err ==> *final(self) == *old(self)
                && r == Err::<(), MbcError>(MbcError::UnsupportedCartridgeType(cartridge_type_of(cartridge.header.cartridge_type))),
            r is Ok ==> final(self).bus is Some && final(self).cpu_error is None
                && final(self).ppu@ == Ppu::initial_view()
                && final(self).bus->Some_0@.cart == cartridge@
                && final(self).booted == (boot_rom is None)
                && final(self).cpu == (if boot_rom is None { Cpu::post_boot() } else { Cpu::initial() }),
    {
        let is_none = boot_rom.is_none();
        let mut bus = match Bus::with_boot_rom(cartridge, boot_rom) {
            Ok(b) => b,
            Err(e) => return Err(e),
        };
        self.cpu = Cpu::new();
        self.cpu_error = None;
        self.ppu = Ppu::new();
        if bus.boot_rom_enabled() {
            self.booted = false;
        } else {
            self.cpu.apply_post_boot_state();
            bus.apply_post_boot_state();
            self.booted = true;
        }
        self.bus = Some(bus);
        Ok(())
    }

    pub fn framebuffer(&self) -> (r: &Framebuffer)
        ensures r == &self.framebuffer,
    {
        &self.framebuffer
    }

    pub fn framebuffer_mut(&mut self) -> (r: &mut Framebuffer)
        ensures
            *r == old(self).framebuffer,
            *final(self) == (Emulator { framebuffer: *final(r), ..*old(self) }),
    {
        &mut self.framebuffer
    }

    pub fn has_bus(&self) -> (r: bool)
        ensures r == self.bus is Some,
    {
        self.bus.is_some()
    }

    /// Sets the pressed-button lines (active low) when a cartridge is loaded.
    pub fn set_joyp_buttons(&mut self, mask: u8)
        requires
            old(self).wf(),
        ensures
            final(self).wf(),
            old(self).bus is Some ==> final(self).bus is Some
                && final(self).bus->Some_0@ == (BusView { joyp_buttons: mask & 0x0F, ..old(self).bus->Some_0@ }),
            old(self).bus is None ==> final(self).bus is None,
    {
        if let Some(bus) = self.bus.as_mut() {
            bus.set_joyp_buttons(mask);
        }
    }

    /// Sets the direction-pad lines (active low) when a cartridge is loaded.
    pub fn set_joyp_dpad(&mut self, mask: u8)
        requires
            old(self).wf(),
        ensures
            final(self).wf(),
            old(self).bus is Some ==> final(self).bus is Some
                && final(self).bus->Some_0@ == (BusView { joyp_dpad: mask & 0x0F, ..old(self).bus->Some_0@ }),
            old(self).bus is None ==> final(self).bus is None,
    {
        if let Some(bus) = self.bus.as_mut() {
            bus.set_joyp_dpad(mask);
        }
    }

    /// One instruction and everything it clocks (see `machine_step_spec`).
    #[verifier::spinoff_prover]
    #[verifier::rlimit(80)]
    fn step_machine(cpu: &mut Cpu, bus: &mut Bus, ppu: &mut Ppu, framebuffer: &mut Framebuffer, apu: &mut Apu, booted: &mut bool)
        -> (r: Result<(u32, bool), CpuError>)
        requires
            old(bus)@.wf(),
            old(ppu)@.wf(),
            old(framebuffer).wf(),
            old(apu).wf(),
        ensures
            final(bus)@.wf(),
            final(ppu)@.wf(),
            final(framebuffer).wf(),
            final(apu).wf(),
            final(bus)@.clock_free() == old(bus)@.clock_free(),
            r is Ok ==> r->Ok_0.0 >= 4,
            exists|t: MachineTimes| (old(bus)@.clock_free() ==> t == zero_machine_times()) && ({
                let (m, res) = #[trigger] machine_step_at(Machine {
                    cpu: *old(cpu), bus: old(bus)@, ppu: old(ppu)@, frame: old(framebuffer).pixels@,
                    apu: *old(apu), booted: *old(booted),
                }, t);
                &&& res == r
                &&& m == (Machine {
                    cpu: *final(cpu), bus: final(bus)@, ppu: final(ppu)@, frame: final(framebuffer).pixels@,
                    apu: *final(apu), booted: *final(booted),
                })
            }),
            old(bus)@.clock_free() ==> ({
                let (m, res) = machine_step_spec(Machine {
                    cpu: *old(cpu), bus: old(bus)@, ppu: old(ppu)@, frame: old(framebuffer).pixels@,
                    apu: *old(apu), booted: *old(booted),
                });
                &&& res == r
                &&& m == (Machine {
                    cpu: *final(cpu), bus: final(bus)@, ppu: final(ppu)@, frame: final(framebuffer).pixels@,
                    apu: *final(apu), booted: *final(booted),
                })
            }),
    {
        let ghost m0 = Machine {
            cpu: *cpu, bus: bus@, ppu: ppu@, frame: framebuffer.pixels@, apu: *apu, booted: *booted,
        };
        let ghost free = bus@.clock_free();
        let ghost c0 = *cpu;
        let ghost b0 = bus@;
        let res = cpu.step(bus);
        let ghost tc = if free {
            fixed_step_times(0)
        } else {
            choose|t: StepTimes| (*cpu, bus@, res) == #[trigger] step_at(c0, b0, t)
        };
        let step_cycles = match res {
            Ok(count) => count,
            Err(err) => {
                proof {
                    let t = if free { zero_machine_times() } else { |i: nat| tc };
                    assert(machine_step_at(m0, t).1 == Err::<(u32, bool), CpuError>(err));
                }
                return Err(err);
            },
        };
        let ghost b1 = bus@;
        bus.step(step_cycles);
        let ghost tb = if free {
            fixed_step_times(0)
        } else {
            choose|t: StepTimes| bus@ == #[trigger] b1.step_at(step_cycles, t)
        };
        if apu.is_steppable() {
            let _ = apu.step(step_cycles);
        }
        let frame_ready = ppu.step(step_cycles, bus, framebuffer);
        if bus.take_boot_rom_disabled() {
            *booted = true;
        }
        let r: Result<(u32, bool), CpuError> = Ok((step_cycles, frame_ready));
        proof {
            let t = if free { zero_machine_times() } else { |i: nat| if i == 0 { tc } else { tb } };
            assert(machine_step_at(m0, t).1 == r);
        }
        r
    }

    /// Steps the machine until a frame completes (see `run_frame_at`).
    fn run_frame(cpu: &mut Cpu, bus: &mut Bus, ppu: &mut Ppu, framebuffer: &mut Framebuffer, apu: &mut Apu, booted: &mut bool)
        -> (r: Result<u32, CpuError>)
        requires
            old(bus)@.wf(),
            old(ppu)@.wf(),
            old(framebuffer).wf(),
            old(apu).wf(),
        ensures
            final(bus)@.wf(),
            final(ppu)@.wf(),
            final(framebuffer).wf(),
            final(apu).wf(),
            old(bus)@.clock_free() ==> run_frame_spec(Machine {
                cpu: *old(cpu), bus: old(bus)@, ppu: old(ppu)@, frame: old(framebuffer).pixels@,
                apu: *old(apu), booted: *old(booted),
            }, 0) == (Machine {
                cpu: *final(cpu), bus: final(bus)@, ppu: final(ppu)@, frame: final(framebuffer).pixels@,
                apu: *final(apu), booted: *final(booted),
            }, r),
            exists|ts: spec_fn(nat) -> MachineTimes| #[trigger] run_frame_at(Machine {
                cpu: *old(cpu), bus: old(bus)@, ppu: old(ppu)@, frame: old(framebuffer).pixels@,
                apu: *old(apu), booted: *old(booted),
            }, 0, ts, 0) == (Machine {
                cpu: *final(cpu), bus: final(bus)@, ppu: final(ppu)@, frame: final(framebuffer).pixels@,
                apu: *final(apu), booted: *final(booted),
            }, r),
    {
        let ghost m0 = Machine {
            cpu: *cpu, bus: bus@, ppu: ppu@, frame: framebuffer.pixels@, apu: *apu, booted: *booted,
        };
        let ghost free = bus@.clock_free();
        let ghost mut seen: Seq<MachineTimes> = Seq::empty();
        let mut cycles: u32 = 0;
        let mut result: Result<u32, CpuError> = Ok(0);
        let mut done = false;
        while !done
            invariant
                bus@.wf(),
                ppu@.wf(),
                framebuffer.wf(),
                apu.wf(),
                bus@.clock_free() == free,
                free == m0.bus.clock_free(),
                free ==> forall|k: int| 0 <= k < seen.len() ==> #[trigger] seen[k] == zero_machine_times(),
                !done ==> forall|ts: spec_fn(nat) -> MachineTimes| extends(ts, seen) ==>
                    #[trigger] run_frame_at(m0, 0, ts, 0) == run_frame_at(Machine {
                        cpu: *cpu, bus: bus@, ppu: ppu@, frame: framebuffer.pixels@, apu: *apu, booted: *booted,
                    }, cycles, ts, seen.len()),
                done ==> forall|ts: spec_fn(nat) -> MachineTimes| extends(ts, seen) ==>
                    #[trigger] run_frame_at(m0, 0, ts, 0) == (Machine {
                        cpu: *cpu, bus: bus@, ppu: ppu@, frame: framebuffer.pixels@, apu: *apu, booted: *booted,
                    }, result),
            decreases (u32::MAX - cycles) as int + (if done { 0int } else { 1int }),
        {
            let ghost m1 = Machine {
                cpu: *cpu, bus: bus@, ppu: ppu@, frame: framebuffer.pixels@, apu: *apu, booted: *booted,
            };
            let ghost c1 = cycles;
            let res = Self::step_machine(cpu, bus, ppu, framebuffer, apu, booted);
            let ghost m2 = Machine {
                cpu: *cpu, bus: bus@, ppu: ppu@, frame: framebuffer.pixels@, apu: *apu, booted: *booted,
            };
            let ghost s = choose|t: MachineTimes| (free ==> t == zero_machine_times())
                && #[trigger] machine_step_at(m1, t) == (m2, res);
            let ghost seen2 = seen.push(s);
            match res {
                Err(err) => {
                    result = Err(err);
                    done = true;
                },
                Ok((step_cycles, frame_ready)) => {
                    let total = cycles.saturating_add(step_cycles);
                    if frame_ready || total == u32::MAX {
                        result = Ok(total);
                        done = true;
                    } else {
                        cycles = total;
                    }
                },
            }
            proof {
                assert forall|ts: spec_fn(nat) -> MachineTimes| extends(ts, seen2) implies
                    extends(ts, seen) && ts(seen.len()) == s by {
                    assert forall|k: nat| k < seen.len() implies #[trigger] ts(k) == seen[k as int] by {
                        assert(ts(k) == seen2[k as int]);
                    }
                    assert(ts(seen.len()) == seen2[seen.len() as int]);
                }
                assert forall|ts: spec_fn(nat) -> MachineTimes| extends(ts, seen2) implies
                    #[trigger] run_frame_at(m1, c1, ts, seen.len()) == (if done { (m2, result) } else {
                        run_frame_at(m2, cycles, ts, seen2.len()) }) by {
                    assert(ts(seen.len()) == s);
                }
                seen = seen2;
            }
        }
        proof {
            let zs = |n: nat| zero_machine_times();
            let cur = Machine {
                cpu: *cpu, bus: bus@, ppu: ppu@, frame: framebuffer.pixels@, apu: *apu, booted: *booted,
            };
            if free {
                assert(extends(zs, seen));
                assert(run_frame_at(m0, 0, zs, 0) == (cur, result));
            }
            let ts = |n: nat| if n < seen.len() { seen[n as int] } else { zero_machine_times() };
            assert(extends(ts, seen));
            assert(run_frame_at(m0, 0, ts, 0) == (cur, result));
        }
        result
    }

    /// Runs instructions until the PPU completes a frame and returns the cycles taken; an
    /// opcode this core does not implement stops the machine, and every later call returns
    /// the same error. Without a cartridge nothing runs. The cycle count saturates, and a
    /// frame that does not complete within `u32::MAX` cycles ends the call there. The frame is
    /// `run_frame_at` for the host times its steps saw; a cartridge clock that does not follow
    /// the host sees none of them, and there it is `run_frame_spec`.
    pub fn step_frame(&mut self) -> (r: Result<u32, CpuError>)
        requires
            old(self).wf(),
        ensures
            final(self).wf(),
            old(self).cpu_error is Some ==> *final(self) == *old(self)
                && r == Err::<u32, CpuError>(old(self).cpu_error->Some_0),
            old(self).cpu_error is None && old(self).bus is None ==> *final(self) == *old(self) && r == Ok::<u32, CpuError>(0),
            old(self).cpu_error is None && old(self).bus is Some ==> final(self).bus is Some
                && final(self).cpu_error == (match r { Err(e) => Some(e), Ok(_) => None::<CpuError> }),
            old(self).cpu_error is None && old(self).bus is Some && old(self).bus->Some_0@.clock_free() ==>
                run_frame_spec(old(self).machine(), 0) == (final(self).machine(), r),
            old(self).cpu_error is None && old(self).bus is Some ==>
                exists|ts: spec_fn(nat) -> MachineTimes|
                    #[trigger] run_frame_at(old(self).machine(), 0, ts, 0) == (final(self).machine(), r),
    {
        if let Some(err) = self.cpu_error {
            return Err(err);
        }
        match self.bus.take() {
            None => Ok(0),
            Some(mut bus) => {
                let r = Self::run_frame(&mut self.cpu, &mut bus, &mut self.ppu, &mut self.framebuffer, &mut self.apu, &mut self.booted);
                self.bus = Some(bus);
                if let Err(err) = r {
                    self.cpu_error = Some(err);
                }
                r
            },
        }
    }

    pub fn apu_step(&mut self, cycles: u32)
        requires
            old(self).wf(),
        ensures
            final(self).wf(),
            *final(self) == (Emulator {
                apu: if old(self).apu.can_step() { old(self).apu.step_spec(cycles) } else { old(self).apu },
                ..*old(self)
            }),
    {
        if self.apu.is_steppable() {
            let _ = self.apu.step(cycles);
        }
    }

    pub fn apu_has_sample(&self) -> (r: bool)
        ensures r == self.apu.sample_ready,
    {
        self.apu.has_sample()
    }

    pub fn apu_take_sample(&mut self) -> (r: i32)
        ensures
            r == old(self).apu.current_sample,
            *final(self) == (Emulator { apu: Apu { sample_ready: false, ..old(self).apu }, ..*old(self) }),
    {
        self.apu.take_sample()
    }

    pub fn apu_sample(&self) -> (r: i32)
        ensures r == self.apu.current_sample,
    {
        self.apu.sample()
    }

    pub fn apu_pulse_output(&self) -> (r: i32)
        ensures r == self.apu.pulse_channel.output_volume,
    {
        self.apu.pulse_output()
    }

    pub fn apu_wave_output(&self) -> (r: i32)
        ensures r == self.apu.wave_channel.output_volume,
    {
        self.apu.wave_output()
    }

    pub fn apu_noise_output(&self) -> (r: i32)
        ensures r == self.apu.noise_channel.output_volume,
    {
        self.apu.noise_output()
    }

    pub fn apu_read_io(&self, addr: u16) -> (r: u8)
        ensures r == self.apu.read_io_spec(addr),
    {
        self.apu.read_io(addr)
    }

    pub fn apu_write_io(&mut self, addr: u16, value: u8)
        requires
            old(self).wf(),
        ensures
            final(self).wf(),
            *final(self) == (Emulator { apu: old(self).apu.write_io_spec(addr, value), ..*old(self) }),
    {
        self.apu.write_io(addr, value);
    }

    pub fn apu_reset(&mut self)
        requires
            old(self).wf(),
        ensures
            final(self).wf(),
            *final(self) == (Emulator { apu: final(self).apu, ..*old(self) }),
            final(self).apu.frame_cycles == crate::domain::apu::FRAME_CYCLES,
            !final(self).apu.sample_ready && final(self).apu.current_sample == 0,
    {
        self.apu.reset();
    }
}

} // verus!
