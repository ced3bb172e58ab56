//! The state of the emulator window and what each of its controls does:
//! the console, the ROM path being edited, the last error, and whether the
//! frame loop runs. Reading files and drawing belong to the front end,
//! which hands this state the contents of a ROM file and asks it what to
//! show.
use vstd::prelude::*;
use crate::gba::{booted, fresh_console, GbaView, GBA};
use crate::memory::ROM_MAX_SIZE;

verus! {

pub struct GBAApp {
    gba: Option<GBA>,
    rom_path: String,
    error_message: Option<String>,
    running: bool,
}

/// The abstract state of the window.
pub struct AppView {
    pub gba: Option<GbaView>,
    pub rom_path: Seq<char>,
    pub error_message: Option<Seq<char>>,
    pub running: bool,
}

impl View for GBAApp {
    type V = AppView;

    closed spec fn view(&self) -> AppView {
        AppView {
            gba: match self.gba {
                Some(g) => Some(g@),
                None => None,
            },
            rom_path: self.rom_path@,
            error_message: match self.error_message {
                Some(e) => Some(e@),
                None => None,
            },
            running: self.running,
        }
    }
}

impl AppView {
    pub open spec fn wf(self) -> bool {
        self.gba matches Some(g) ==> g.wf()
    }
}

/// The window with no console, an empty ROM path, no error and the frame
/// loop stopped.
pub open spec fn empty_app() -> AppView {
    AppView { gba: None, rom_path: Seq::empty(), error_message: None, running: false }
}

/// The window after a ROM file is read (`Err` with the reason where it
/// could not be): a fresh console with the image installed, no error and
/// the frame loop running; for an image over 32 MiB or a failed read, the
/// error, the frame loop stopped and the console kept as it was.
pub open spec fn after_load(app: AppView, file: Result<Vec<u8>, String>) -> AppView {
    match file {
        Ok(rom) => if rom@.len() <= ROM_MAX_SIZE {
            AppView {
                gba: Some(booted(fresh_console(), rom@)),
                error_message: None,
                running: true,
                ..app
            }
        } else {
            AppView { error_message: Some("ROM too large"@), running: false, ..app }
        },
        Err(e) => AppView { error_message: Some(e@), running: false, ..app },
    }
}

impl GBAApp {
    /// The window at start, with the ROM file read from the default path
    /// loaded.
    pub fn new(default_rom: Result<Vec<u8>, String>) -> (app: Self)
        ensures
            app@.wf(),
            app@ == after_load(empty_app(), default_rom),
    {
        let mut app = GBAApp {
            gba: None,
            rom_path: String::new(),
            error_message: None,
            running: false,
        };
        proof {
            assert(app.rom_path@ == Seq::<char>::empty());
        }
        app.load_rom(default_rom);
        app
    }

    /// Loads the contents of a ROM file into a fresh console.
    pub fn load_rom(&mut self, file: Result<Vec<u8>, String>)
        requires
            old(self)@.wf(),
        ensures
            final(self)@.wf(),
            final(self)@ == after_load(old(self)@, file),
    {
        match file {
            Ok(rom) => {
                let mut gba = GBA::new();
                match gba.load_rom(rom) {
                    Ok(()) => {
                        self.gba = Some(gba);
                        self.error_message = None;
                        self.running = true;
                    },
                    Err(e) => {
                        self.error_message = Some(e);
                        self.running = false;
                    },
                }
            },
            Err(e) => {
                self.error_message = Some(e);
                self.running = false;
            },
        }
    }

    /// The ROM path as edited.
    pub fn rom_path(&self) -> (p: &String)
        ensures
            p@ == self@.rom_path,
    {
        &self.rom_path
    }

    /// Replaces the ROM path with the edited text.
    pub fn set_rom_path(&mut self, path: String)
        ensures
            final(self)@ == (AppView { rom_path: path@, ..old(self)@ }),
    {
        self.rom_path = path;
    }

    /// Whether the Load button loads anything: only a non-empty path is
    /// read.
    pub fn has_rom_path(&self) -> (b: bool)
        ensures
            b == (self@.rom_path.len() > 0),
    {
        !self.rom_path.as_str().is_empty()
    }

    pub fn is_running(&self) -> (b: bool)
        ensures
            b == self@.running,
    {
        self.running
    }

    /// The Pause button: the frame loop stops.
    pub fn pause(&mut self)
        ensures
            final(self)@ == (AppView { running: false, ..old(self)@ }),
    {
        self.running = false;
    }

    /// The Start button: the frame loop runs, where a console is loaded.
    pub fn start(&mut self)
        ensures
            final(self)@ == (AppView {
                running: old(self)@.running || old(self)@.gba is Some,
                ..old(self)@
            }),
    {
        if self.gba.is_some() {
            self.running = true;
        }
    }

    /// The Step button: one instruction runs on the loaded console, if any.
    /// Returns `false`, with nothing changed, where the instruction would
    /// panic (see `GBA::can_step`).
    pub fn step(&mut self) -> (ok: bool)
        requires
            old(self)@.wf(),
        ensures
            final(self)@.wf(),
            final(self)@.rom_path == old(self)@.rom_path,
            final(self)@.error_message == old(self)@.error_message,
            final(self)@.running == old(self)@.running,
            old(self)@.gba is None ==> ok && final(self)@ == old(self)@,
            old(self)@.gba matches Some(g) ==> ok == crate::cpu::cycle_ok(g.cpu, g.mem),
            !ok ==> final(self)@ == old(self)@,
            ok && old(self)@.gba is Some ==> ({
                let g = old(self)@.gba->Some_0;
                let s = crate::cpu::cycle_step(g.cpu.regs, g.mem);
                &&& crate::cpu::cycle_ok(g.cpu, g.mem)
                &&& final(self)@.gba == Some(GbaView {
                    cpu: crate::cpu::CpuView {
                        regs: s.regs,
                        total_cycles: (g.cpu.total_cycles + s.cycles) as u64,
                    },
                    mem: s.mem,
                    ppu: g.ppu,
                })
            }),
    {
        match self.gba.take() {
            Some(mut gba) => {
                let ok = gba.can_step();
                if ok {
                    gba.step();
                }
                self.gba = Some(gba);
                ok
            },
            None => true,
        }
    }

    /// One update of the window while the frame loop runs: the console runs
    /// until its next frame. Returns `false` where the frame loop stopped
    /// short of a frame (see `GBA::run_frame`); nothing runs, and `true` is
    /// returned, where the loop is stopped or no console is loaded.
    pub fn run(&mut self) -> (ok: bool)
        requires
            old(self)@.wf(),
        ensures
            final(self)@.wf(),
            final(self)@.rom_path == old(self)@.rom_path,
            final(self)@.error_message == old(self)@.error_message,
            final(self)@.running == old(self)@.running,
            final(self)@.gba is Some == old(self)@.gba is Some,
            !(old(self)@.running && old(self)@.gba is Some) ==> ok && final(self)@ == old(self)@,
            old(self)@.running && old(self)@.gba is Some ==> ({
                let g = old(self)@.gba->Some_0;
                let f = final(self)@.gba->Some_0;
                &&& ok ==> exists|n: nat|
                    #![trigger crate::gba::ticks(g, n)]
                    crate::gba::quiet_ticks(g, n) && crate::gba::tick_ok(crate::gba::ticks(g, n))
                        && crate::gba::tick_result(crate::gba::ticks(g, n)).1 && f
                        == crate::gba::tick_result(crate::gba::ticks(g, n)).0
                &&& !ok ==> exists|n: nat|
                    #![trigger crate::gba::ticks(g, n)]
                    crate::gba::quiet_ticks(g, n) && f == crate::gba::ticks(g, n) && (n
                        == u64::MAX || !crate::gba::tick_ok(f))
            }),
    {
        if !self.running {
            return true;
        }
        match self.gba.take() {
            Some(mut gba) => {
                let ok = gba.run_frame();
                self.gba = Some(gba);
                ok
            },
            None => true,
        }
    }

    /// The message of the last failed load, if any.
    pub fn error_message(&self) -> (e: &Option<String>)
        ensures
            e matches Some(m) ==> self@.error_message == Some(m@),
            e is None <==> self@.error_message is None,
    {
        &self.error_message
    }

    /// The framebuffer of the loaded console, if any.
    pub fn framebuffer(&self) -> (fb: Option<&[u8]>)
        ensures
            fb matches Some(b) ==> self@.gba matches Some(g) && b@ == g.ppu.framebuffer,
            fb is None <==> self@.gba is None,
    {
        match &self.gba {
            Some(gba) => Some(gba.get_framebuffer()),
            None => None,
        }
    }
}

} // verus!
