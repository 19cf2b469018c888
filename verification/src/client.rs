//! One method for each thing that the instrument can be asked or told.
//!
//! Each method takes the call of its command one step further, as
//! `run_operation` does for any command.

use vstd::prelude::*;
use crate::engine::{accepts, operation_step, Action, Event, SPE};
use crate::number::Number;
use crate::operations::iee4882::{Idn, IdnOutput, Reset};
use crate::operations::measure;
use crate::operations::measure::{
    MeasureAll, MeasureAllInfo, MeasureAllInfoOutput, MeasureAllOutput,
};
use crate::operations::output::{
    Current, CurrentLimit, DisableOutput, EnableOutput, Output, SetCurrent, SetCurrentLimit,
    SetVolt, SetVoltLimit, Volt, VoltLimit,
};

verus! {

impl SPE {
    /// Asks the instrument what it is.
    pub fn idn(&mut self, event: Event) -> (action: Action<IdnOutput>)
        requires
            accepts(old(self)@, event),
        ensures
            operation_step(Idn {}, event, final(self)@, action),
    {
        self.run_operation(&Idn {}, event)
    }

    /// Puts the instrument back into its initial state.
    pub fn reset(&mut self, event: Event) -> (action: Action<()>)
        requires
            accepts(old(self)@, event),
        ensures
            operation_step(Reset {}, event, final(self)@, action),
    {
        self.run_operation(&Reset {}, event)
    }

    /// Switches the output on.
    pub fn enable_output(&mut self, event: Event) -> (action: Action<()>)
        requires
            accepts(old(self)@, event),
        ensures
            operation_step(EnableOutput {}, event, final(self)@, action),
    {
        self.run_operation(&EnableOutput {}, event)
    }

    /// Switches the output off.
    pub fn disable_output(&mut self, event: Event) -> (action: Action<()>)
        requires
            accepts(old(self)@, event),
        ensures
            operation_step(DisableOutput {}, event, final(self)@, action),
    {
        self.run_operation(&DisableOutput {}, event)
    }

    /// Asks whether the output is on.
    pub fn output(&mut self, event: Event) -> (action: Action<bool>)
        requires
            accepts(old(self)@, event),
        ensures
            operation_step(Output {}, event, final(self)@, action),
    {
        self.run_operation(&Output {}, event)
    }

    /// Sets the voltage.
    pub fn set_volt(&mut self, volt: &Number, event: Event) -> (action: Action<()>)
        requires
            accepts(old(self)@, event),
        ensures
            operation_step(SetVolt { value: *volt }, event, final(self)@, action),
    {
        self.run_operation(&SetVolt { value: volt.clone() }, event)
    }

    /// Asks for the voltage that is set.
    pub fn volt(&mut self, event: Event) -> (action: Action<Number>)
        requires
            accepts(old(self)@, event),
        ensures
            operation_step(Volt {}, event, final(self)@, action),
    {
        self.run_operation(&Volt {}, event)
    }

    /// Sets the voltage limit.
    pub fn set_volt_limit(&mut self, volt: &Number, event: Event) -> (action: Action<()>)
        requires
            accepts(old(self)@, event),
        ensures
            operation_step(SetVoltLimit { value: *volt }, event, final(self)@, action),
    {
        self.run_operation(&SetVoltLimit { value: volt.clone() }, event)
    }

    /// Asks for the voltage limit that is set.
    pub fn volt_limit(&mut self, event: Event) -> (action: Action<Number>)
        requires
            accepts(old(self)@, event),
        ensures
            operation_step(VoltLimit {}, event, final(self)@, action),
    {
        self.run_operation(&VoltLimit {}, event)
    }

    /// Sets the current.
    pub fn set_current(&mut self, current: &Number, event: Event) -> (action: Action<()>)
        requires
            accepts(old(self)@, event),
        ensures
            operation_step(SetCurrent { value: *current }, event, final(self)@, action),
    {
        self.run_operation(&SetCurrent { value: current.clone() }, event)
    }

    /// Asks for the current that is set.
    pub fn current(&mut self, event: Event) -> (action: Action<Number>)
        requires
            accepts(old(self)@, event),
        ensures
            operation_step(Current {}, event, final(self)@, action),
    {
        self.run_operation(&Current {}, event)
    }

    /// Sets the current limit.
    pub fn set_current_limit(&mut self, current: &Number, event: Event) -> (action: Action<()>)
        requires
            accepts(old(self)@, event),
        ensures
            operation_step(SetCurrentLimit { value: *current }, event, final(self)@, action),
    {
        self.run_operation(&SetCurrentLimit { value: current.clone() }, event)
    }

    /// Asks for the current limit that is set.
    pub fn current_limit(&mut self, event: Event) -> (action: Action<Number>)
        requires
            accepts(old(self)@, event),
        ensures
            operation_step(CurrentLimit {}, event, final(self)@, action),
    {
        self.run_operation(&CurrentLimit {}, event)
    }

    /// Asks for the voltage at the output.
    pub fn measure_volt(&mut self, event: Event) -> (action: Action<Number>)
        requires
            accepts(old(self)@, event),
        ensures
            operation_step(measure::Volt {}, event, final(self)@, action),
    {
        self.run_operation(&measure::Volt {}, event)
    }

    /// Asks for the current through the output.
    pub fn measure_current(&mut self, event: Event) -> (action: Action<Number>)
        requires
            accepts(old(self)@, event),
        ensures
            operation_step(measure::Current {}, event, final(self)@, action),
    {
        self.run_operation(&measure::Current {}, event)
    }

    /// Asks for the power that the output delivers.
    pub fn measure_power(&mut self, event: Event) -> (action: Action<Number>)
        requires
            accepts(old(self)@, event),
        ensures
            operation_step(measure::Power {}, event, final(self)@, action),
    {
        self.run_operation(&measure::Power {}, event)
    }

    /// Asks for voltage and current together.
    pub fn measure_all(&mut self, event: Event) -> (action: Action<MeasureAllOutput>)
        requires
            accepts(old(self)@, event),
        ensures
            operation_step(MeasureAll {}, event, final(self)@, action),
    {
        self.run_operation(&MeasureAll {}, event)
    }

    /// Asks for measurements, protection flags and mode together.
    pub fn measure_all_info(&mut self, event: Event) -> (action: Action<MeasureAllInfoOutput>)
        requires
            accepts(old(self)@, event),
        ensures
            operation_step(MeasureAllInfo {}, event, final(self)@, action),
    {
        self.run_operation(&MeasureAllInfo {}, event)
    }
}

} // verus!
