//! The name-listing operation: a single step that turns the gathered
//! presets into the listing file's text.

use vstd::prelude::*;
use crate::matrix_handler::MatrixHandler;
use crate::options::Options;
use crate::preset_listing::{listing_text, listing_text_spec};
use crate::stepper::{StepEffect, WorkingStatus};

verus! {

/// The stepper of the list-names action.
pub struct NameList {}

impl NameList {
    /// One step: emit the listing text for the gathered presets and
    /// finish. With no presets gathered there is nothing to write.
    pub fn next(&mut self, _options: &Options, handler: &mut MatrixHandler) -> (r: (
        WorkingStatus,
        StepEffect,
    ))
        ensures
            r.0 == WorkingStatus::Finished,
            *final(handler) == *old(handler),
            old(handler).presets@.len() == 0 ==> r.1 is Nothing,
            old(handler).presets@.len() > 0 ==> (r.1 matches StepEffect::WriteListing { text }
                && text@ == listing_text_spec(old(handler).presets@)),
    {
        if handler.get_presets().len() == 0 {
            (WorkingStatus::Finished, StepEffect::Nothing)
        } else {
            let text = listing_text(handler.get_presets());
            (WorkingStatus::Finished, StepEffect::WriteListing { text })
        }
    }
}

} // verus!
