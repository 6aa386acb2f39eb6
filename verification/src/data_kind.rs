//! The kinds of out-of-band data stream the instrument can announce.

use vstd::prelude::*;

verus! {

/// The payload kind selected by a data-stream announcement.
#[derive(Clone, Copy, Debug, PartialEq, Eq, Structural)]
pub enum DataKind {
    Name,
    ControlText,
    Graph,
    GraphOffset1,
    GraphOffset2,
    GraphT0,
    GraphT1,
    Log,
    Category,
    DemoAssort,
    Float,
    Kinetic,
    BiquadSin,
    System,
    Convolution,
    Unknown,
}

impl Default for DataKind {
    fn default() -> (r: Self)
        ensures
            r == DataKind::Unknown,
    {
        DataKind::Unknown
    }
}

/// The kind a raw stream-announcement value selects.
pub open spec fn data_kind_of(raw: u8) -> DataKind {
    match raw {
        0 => DataKind::Name,
        1 => DataKind::ControlText,
        2 => DataKind::Graph,
        3 => DataKind::GraphOffset1,
        4 => DataKind::GraphOffset2,
        5 => DataKind::GraphT0,
        6 => DataKind::GraphT1,
        7 => DataKind::Log,
        8 => DataKind::Category,
        9 => DataKind::DemoAssort,
        10 => DataKind::Float,
        11 => DataKind::Kinetic,
        12 => DataKind::BiquadSin,
        13 => DataKind::System,
        14 => DataKind::Convolution,
        _ => DataKind::Unknown,
    }
}

impl DataKind {
    /// The kind a raw value selects; anything out of range is `Unknown`.
    pub fn new(raw: u8) -> (r: Self)
        ensures
            r == data_kind_of(raw),
    {
        match raw {
            0 => DataKind::Name,
            1 => DataKind::ControlText,
            2 => DataKind::Graph,
            3 => DataKind::GraphOffset1,
            4 => DataKind::GraphOffset2,
            5 => DataKind::GraphT0,
            6 => DataKind::GraphT1,
            7 => DataKind::Log,
            8 => DataKind::Category,
            9 => DataKind::DemoAssort,
            10 => DataKind::Float,
            11 => DataKind::Kinetic,
            12 => DataKind::BiquadSin,
            13 => DataKind::System,
            14 => DataKind::Convolution,
            _ => DataKind::Unknown,
        }
    }

    /// The kind's display name.
    pub fn name(&self) -> (r: &'static str)
        ensures
            r@ == data_kind_name_chars(*self),
    {
        match self {
            DataKind::Name => "Name",
            DataKind::ControlText => "Control Text",
            DataKind::Graph => "Graph",
            DataKind::GraphOffset1 => "Graph Offset 1",
            DataKind::GraphOffset2 => "Graph Offset 2",
            DataKind::GraphT0 => "Graph T0",
            DataKind::GraphT1 => "Graph T1",
            DataKind::Log => "Log",
            DataKind::Category => "Category",
            DataKind::DemoAssort => "Demo Assortment",
            DataKind::Float => "Float",
            DataKind::Kinetic => "Kinetic",
            DataKind::BiquadSin => "Biquad Sine",
            DataKind::System => "System",
            DataKind::Convolution => "Convolution",
            DataKind::Unknown => "Unknown",
        }
    }
}

impl crate::midi_traits::ParseByte<DataKind> for DataKind {
    /// The kind a raw value selects, or nothing for a value out of range.
    fn parse(raw: u8) -> Option<DataKind> {
        if raw <= 14 {
            Some(DataKind::new(raw))
        } else {
            None
        }
    }
}

/// The display name of each payload kind.
pub open spec fn data_kind_name_chars(k: DataKind) -> Seq<char> {
    match k {
        DataKind::Name => "Name"@,
        DataKind::ControlText => "Control Text"@,
        DataKind::Graph => "Graph"@,
        DataKind::GraphOffset1 => "Graph Offset 1"@,
        DataKind::GraphOffset2 => "Graph Offset 2"@,
        DataKind::GraphT0 => "Graph T0"@,
        DataKind::GraphT1 => "Graph T1"@,
        DataKind::Log => "Log"@,
        DataKind::Category => "Category"@,
        DataKind::DemoAssort => "Demo Assortment"@,
        DataKind::Float => "Float"@,
        DataKind::Kinetic => "Kinetic"@,
        DataKind::BiquadSin => "Biquad Sine"@,
        DataKind::System => "System"@,
        DataKind::Convolution => "Convolution"@,
        DataKind::Unknown => "Unknown"@,
    }
}

} // verus!
