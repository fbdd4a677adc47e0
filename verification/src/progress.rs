//! Progress reporting values for the assembler's out-of-band channel.
//!
//! The channel itself (its transport and delivery) is a collaborator's
//! concern; the steps, their percentages and their messages are fixed
//! here.

use vstd::prelude::*;

verus! {

/// One progress update as published to the channel.
#[derive(Debug, Clone)]
pub struct Progress {
    pub percentage: u8,
    pub message: String,
    pub updated_at: i64,
}

/// The named steps of one merge operation.
#[derive(Debug, Clone, Copy, PartialEq, Eq, Structural)]
pub enum ProgressStep {
    Started,
    DetectingPlatforms,
    ValidatingPlatforms,
    CreatingWorkDir,
    WritingBinaries,
    CreatingLoader,
    ConvertingToObjects,
    CompilingLoader,
    Linking,
    Complete,
}

impl ProgressStep {
    /// How far along the merge is at this step, in percent.
    pub open spec fn spec_percentage(self) -> u8 {
        match self {
            ProgressStep::Started => 0u8,
            ProgressStep::DetectingPlatforms => 10u8,
            ProgressStep::ValidatingPlatforms => 20u8,
            ProgressStep::CreatingWorkDir => 25u8,
            ProgressStep::WritingBinaries => 35u8,
            ProgressStep::CreatingLoader => 45u8,
            ProgressStep::ConvertingToObjects => 60u8,
            ProgressStep::CompilingLoader => 75u8,
            ProgressStep::Linking => 85u8,
            ProgressStep::Complete => 100u8,
        }
    }

    /// How far along the merge is at this step, in percent.
    pub fn percentage(&self) -> (p: u8)
        ensures
            p == self.spec_percentage(),
    {
        match self {
            ProgressStep::Started => 0,
            ProgressStep::DetectingPlatforms => 10,
            ProgressStep::ValidatingPlatforms => 20,
            ProgressStep::CreatingWorkDir => 25,
            ProgressStep::WritingBinaries => 35,
            ProgressStep::CreatingLoader => 45,
            ProgressStep::ConvertingToObjects => 60,
            ProgressStep::CompilingLoader => 75,
            ProgressStep::Linking => 85,
            ProgressStep::Complete => 100,
        }
    }

    /// The textual update published for this step.
    pub open spec fn spec_message(self) -> Seq<char> {
        match self {
            ProgressStep::Started => "Starting merge operation"@,
            ProgressStep::DetectingPlatforms => "Detecting binary platforms"@,
            ProgressStep::ValidatingPlatforms => "Validating platform compatibility"@,
            ProgressStep::CreatingWorkDir => "Creating working directory"@,
            ProgressStep::WritingBinaries => "Writing binary files"@,
            ProgressStep::CreatingLoader => "Creating loader stub"@,
            ProgressStep::ConvertingToObjects => "Converting binaries to object files"@,
            ProgressStep::CompilingLoader => "Compiling loader"@,
            ProgressStep::Linking => "Linking everything together"@,
            ProgressStep::Complete => "Merge complete"@,
        }
    }

    /// The textual update published for this step.
    pub fn message(&self) -> (m: &'static str)
        ensures
            m@ == self.spec_message(),
    {
        match self {
            ProgressStep::Started => "Starting merge operation",
            ProgressStep::DetectingPlatforms => "Detecting binary platforms",
            ProgressStep::ValidatingPlatforms => "Validating platform compatibility",
            ProgressStep::CreatingWorkDir => "Creating working directory",
            ProgressStep::WritingBinaries => "Writing binary files",
            ProgressStep::CreatingLoader => "Creating loader stub",
            ProgressStep::ConvertingToObjects => "Converting binaries to object files",
            ProgressStep::CompilingLoader => "Compiling loader",
            ProgressStep::Linking => "Linking everything together",
            ProgressStep::Complete => "Merge complete",
        }
    }
}

} // verus!
