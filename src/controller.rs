use crate::ekit::{system_mode_of, EKitSystemRunMode, EKitUserRunMode};
use crate::fan::Fan;
use crate::heating::HeatingCoil;
use crate::overtemperature_protection::{forced_mode, OvertemperatureProtection};
use crate::temperature::Temperature;
use vstd::prelude::*;

verus! {

/// One of the three outputs of the e-kit.
#[derive(Clone, Copy, PartialEq, Eq, Structural, Debug)]
pub enum Peripheral {
    Fan,
    Coil1,
    Coil2,
}

/// An instruction to turn one output on or off.
#[derive(Clone, Copy, PartialEq, Eq, Structural, Debug)]
pub struct PeripheralWrite {
    pub peripheral: Peripheral,
    pub on: bool,
}

pub open spec fn write(peripheral: Peripheral, on: bool) -> PeripheralWrite {
    PeripheralWrite { peripheral, on }
}

/// The writes that enter a run mode, in the order they are made.
///
/// Heat sources go off before the airflow stops, and the airflow starts before any
/// heat source goes on.
pub open spec fn run_mode_writes(mode: EKitSystemRunMode) -> Seq<PeripheralWrite> {
    match mode {
        EKitSystemRunMode::Off => seq![
            write(Peripheral::Coil1, false),
            write(Peripheral::Coil2, false),
            write(Peripheral::Fan, false),
        ],
        EKitSystemRunMode::Cooldown | EKitSystemRunMode::Cool => seq![
            write(Peripheral::Fan, true),
            write(Peripheral::Coil1, false),
            write(Peripheral::Coil2, false),
        ],
        EKitSystemRunMode::Half => seq![
            write(Peripheral::Fan, true),
            write(Peripheral::Coil1, true),
            write(Peripheral::Coil2, false),
        ],
        EKitSystemRunMode::Full => seq![
            write(Peripheral::Fan, true),
            write(Peripheral::Coil1, true),
            write(Peripheral::Coil2, true),
        ],
    }
}

/// Whether the fan runs in a mode.
pub open spec fn fan_runs_in(mode: EKitSystemRunMode) -> bool {
    mode != EKitSystemRunMode::Off
}

/// Whether heating coil 1 heats in a mode.
pub open spec fn coil1_heats_in(mode: EKitSystemRunMode) -> bool {
    mode == EKitSystemRunMode::Half || mode == EKitSystemRunMode::Full
}

/// Whether heating coil 2 heats in a mode.
pub open spec fn coil2_heats_in(mode: EKitSystemRunMode) -> bool {
    mode == EKitSystemRunMode::Full
}

/// The abstract state of an e-kit controller.
pub struct EKitView {
    pub run_mode: EKitSystemRunMode,
    pub protection: OvertemperatureProtection,
    pub fan_on: bool,
    pub coil1_on: bool,
    pub coil2_on: bool,
    /// Every output write made so far and not yet taken, oldest first.
    pub writes: Seq<PeripheralWrite>,
}

impl EKitView {
    /// The outputs are as the run mode has them.
    pub open spec fn outputs_match_mode(self) -> bool {
        &&& self.fan_on == fan_runs_in(self.run_mode)
        &&& self.coil1_on == coil1_heats_in(self.run_mode)
        &&& self.coil2_on == coil2_heats_in(self.run_mode)
    }

    /// No heating coil is on while the fan is off.
    pub open spec fn heat_has_airflow(self) -> bool {
        (self.coil1_on || self.coil2_on) ==> self.fan_on
    }

    /// The state after protection was entered by force.
    pub open spec fn protection_entered(self) -> EKitView {
        EKitView { protection: self.protection.entered(), ..self }
    }

    /// The state after one output write.
    pub open spec fn written(self, w: PeripheralWrite) -> EKitView {
        EKitView {
            fan_on: if w.peripheral == Peripheral::Fan { w.on } else { self.fan_on },
            coil1_on: if w.peripheral == Peripheral::Coil1 { w.on } else { self.coil1_on },
            coil2_on: if w.peripheral == Peripheral::Coil2 { w.on } else { self.coil2_on },
            writes: self.writes.push(w),
            ..self
        }
    }

    /// The state after entering a run mode.
    pub open spec fn entered(self, mode: EKitSystemRunMode) -> EKitView {
        EKitView {
            run_mode: mode,
            fan_on: fan_runs_in(mode),
            coil1_on: coil1_heats_in(mode),
            coil2_on: coil2_heats_in(mode),
            writes: self.writes + run_mode_writes(mode),
            ..self
        }
    }

    /// The state after re-evaluating the run mode: a forced mode wins over the
    /// requested one; with neither, nothing changes.
    pub open spec fn updated(self, requested: Option<EKitSystemRunMode>) -> EKitView {
        match forced_mode(self.protection) {
            Some(forced) => self.entered(forced),
            None => match requested {
                Some(mode) => self.entered(mode),
                None => self,
            },
        }
    }

    /// The state after a run mode was requested.
    pub open spec fn after_request(self, mode: EKitSystemRunMode) -> EKitView {
        if self.run_mode == EKitSystemRunMode::Cooldown {
            self
        } else if mode == EKitSystemRunMode::Off {
            self.protection_entered().updated(Some(mode))
        } else {
            self.updated(Some(mode))
        }
    }

    /// The state after a reading of the output temperature.
    pub open spec fn after_reading(self, reading: Option<Temperature>) -> EKitView {
        EKitView { protection: self.protection.after_reading(reading), ..self }.updated(None)
    }
}

/// The e-kit controller: drives the fan and both heating coils from the requested
/// run mode and the overtemperature protection.
pub struct EKitLocal {
    run_mode: EKitSystemRunMode,
    fan: Fan,
    heating_coil1: HeatingCoil,
    heating_coil2: HeatingCoil,
    overtemperature_protection: OvertemperatureProtection,
    writes: Vec<PeripheralWrite>,
}

impl View for EKitLocal {
    type V = EKitView;

    closed spec fn view(&self) -> EKitView {
        EKitView {
            run_mode: self.run_mode,
            protection: self.overtemperature_protection,
            fan_on: self.fan@,
            coil1_on: self.heating_coil1@,
            coil2_on: self.heating_coil2@,
            writes: self.writes@,
        }
    }
}

impl EKitLocal {
    /// Returns a controller for the given outputs, in run mode `Off` with inactive
    /// protection; the outputs are switched off at once.
    pub fn new(fan: Fan, heating_coil1: HeatingCoil, heating_coil2: HeatingCoil) -> (e: EKitLocal)
        ensures
            e@.run_mode == EKitSystemRunMode::Off,
            !e@.protection.is_active && !e@.protection.was_active,
            !e@.fan_on && !e@.coil1_on && !e@.coil2_on,
            e@.writes == run_mode_writes(EKitSystemRunMode::Off),
            e@.outputs_match_mode(),
    {
        let mut ekit = EKitLocal {
            run_mode: EKitSystemRunMode::Off,
            fan,
            heating_coil1,
            heating_coil2,
            overtemperature_protection: OvertemperatureProtection::inactive(),
            writes: Vec::new(),
        };
        ekit.enter_run_mode(EKitSystemRunMode::Off);
        assert(ekit.writes@ =~= run_mode_writes(EKitSystemRunMode::Off));
        ekit
    }

    /// Returns `true` if the e-kit is currently turned on.
    pub fn is_on(&self) -> (r: bool)
        ensures
            r == (self@.run_mode != EKitSystemRunMode::Off),
    {
        !matches!(self.run_mode, EKitSystemRunMode::Off)
    }

    /// Returns the current run mode.
    pub fn run_mode(&self) -> (r: EKitSystemRunMode)
        ensures
            r == self@.run_mode,
    {
        self.run_mode
    }

    /// Returns the fan.
    pub fn fan(&self) -> (r: &Fan)
        ensures
            r@ == self@.fan_on,
    {
        &self.fan
    }

    /// Returns heating coil 1.
    pub fn heating_coil1(&self) -> (r: &HeatingCoil)
        ensures
            r@ == self@.coil1_on,
    {
        &self.heating_coil1
    }

    /// Returns heating coil 2.
    pub fn heating_coil2(&self) -> (r: &HeatingCoil)
        ensures
            r@ == self@.coil2_on,
    {
        &self.heating_coil2
    }

    /// Returns the overtemperature protection state.
    pub fn overtemperature_protection(&self) -> (r: OvertemperatureProtection)
        ensures
            r == self@.protection,
    {
        self.overtemperature_protection
    }

    /// Returns the overtemperature protection, to be changed in place.
    pub fn overtemperature_protection_mut(&mut self) -> (r: &mut OvertemperatureProtection)
        ensures
            *r == old(self)@.protection,
            final(self)@ == (EKitView { protection: *final(r), ..old(self)@ }),
    {
        &mut self.overtemperature_protection
    }

    /// Takes the output writes made since the last call, oldest first.
    pub fn take_writes(&mut self) -> (r: Vec<PeripheralWrite>)
        ensures
            r@ == old(self)@.writes,
            final(self)@ == (EKitView { writes: Seq::empty(), ..old(self)@ }),
    {
        let mut taken: Vec<PeripheralWrite> = Vec::new();
        std::mem::swap(&mut taken, &mut self.writes);
        taken
    }

    /// Sets the output temperature of the e-kit; `None` means that it could not be read.
    pub fn set_output_temperature(&mut self, output_temperature: Option<Temperature>)
        ensures
            final(self)@ == old(self)@.after_reading(output_temperature),
            old(self)@.outputs_match_mode() ==> final(self)@.outputs_match_mode(),
    {
        self.overtemperature_protection.output_temperature_changed(output_temperature);
        self.update_run_mode(None);
    }

    /// Requests a user run mode.
    pub fn request_user_run_mode(&mut self, run_mode: EKitUserRunMode)
        ensures
            final(self)@ == old(self)@.after_request(system_mode_of(run_mode)),
            old(self)@.outputs_match_mode() ==> final(self)@.outputs_match_mode(),
    {
        self.request_run_mode(run_mode.to_system_run_mode())
    }

    /// Requests a run mode.
    ///
    /// While in cooldown the request is dropped. Asking for `Off` enters
    /// overtemperature protection first, so that the e-kit cools down before it
    /// goes off.
    pub fn request_run_mode(&mut self, run_mode: EKitSystemRunMode)
        ensures
            final(self)@ == old(self)@.after_request(run_mode),
            old(self)@.outputs_match_mode() ==> final(self)@.outputs_match_mode(),
    {
        if matches!(self.run_mode, EKitSystemRunMode::Cooldown) {
            return;
        }
        if matches!(run_mode, EKitSystemRunMode::Off) {
            self.overtemperature_protection.enter();
        }
        self.update_run_mode(Some(run_mode));
    }

    /// Updates the run mode: the mode forced by overtemperature protection takes
    /// priority over `requested_run_mode`.
    pub fn update_run_mode(&mut self, requested_run_mode: Option<EKitSystemRunMode>)
        ensures
            final(self)@ == old(self)@.updated(requested_run_mode),
            old(self)@.outputs_match_mode() ==> final(self)@.outputs_match_mode(),
    {
        if let Some(forced_mode) = self.overtemperature_protection.forced_run_mode() {
            self.enter_run_mode(forced_mode);
        } else if let Some(requested_mode) = requested_run_mode {
            self.enter_run_mode(requested_mode);
        }
    }

    /// Turns one output on or off and records the write.
    fn write_peripheral(&mut self, peripheral: Peripheral, on: bool)
        ensures
            final(self)@ == old(self)@.written(write(peripheral, on)),
    {
        match peripheral {
            Peripheral::Fan => if on {
                self.fan.turn_on()
            } else {
                self.fan.turn_off()
            },
            Peripheral::Coil1 => if on {
                self.heating_coil1.turn_on()
            } else {
                self.heating_coil1.turn_off()
            },
            Peripheral::Coil2 => if on {
                self.heating_coil2.turn_on()
            } else {
                self.heating_coil2.turn_off()
            },
        }
        self.writes.push(PeripheralWrite { peripheral, on });
    }

    /// Enters a run mode, writing the outputs in the order `run_mode_writes` gives.
    pub fn enter_run_mode(&mut self, run_mode: EKitSystemRunMode)
        ensures
            final(self)@ == old(self)@.entered(run_mode),
            final(self)@.outputs_match_mode(),
    {
        match run_mode {
            EKitSystemRunMode::Off => {
                self.write_peripheral(Peripheral::Coil1, false);
                self.write_peripheral(Peripheral::Coil2, false);
                // the fan goes off after the heating coils, in case the latter fail
                self.write_peripheral(Peripheral::Fan, false);
            },
            EKitSystemRunMode::Cooldown | EKitSystemRunMode::Cool => {
                self.write_peripheral(Peripheral::Fan, true);
                self.write_peripheral(Peripheral::Coil1, false);
                self.write_peripheral(Peripheral::Coil2, false);
            },
            EKitSystemRunMode::Half => {
                // the fan goes on before the heating coils, in case the former fails
                self.write_peripheral(Peripheral::Fan, true);
                self.write_peripheral(Peripheral::Coil1, true);
                self.write_peripheral(Peripheral::Coil2, false);
            },
            EKitSystemRunMode::Full => {
                self.write_peripheral(Peripheral::Fan, true);
                self.write_peripheral(Peripheral::Coil1, true);
                self.write_peripheral(Peripheral::Coil2, true);
            },
        }
        self.run_mode = run_mode;
        assert(self.writes@ =~= old(self).writes@ + run_mode_writes(run_mode));
    }
}

} // verus!
