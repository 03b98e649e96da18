//! The data of the two views: guide sections with their entries, and sanctuary
//! programs with their records.
use vstd::prelude::*;

use crate::text::same_text;
use vstd::view::View as _;

verus! {

/// A single pattern entry with description, signals, and protocol.
#[derive(Debug, Clone, PartialEq, Eq)]
pub struct Entry {
    pub pattern: String,
    pub description: String,
    pub signals: Vec<String>,
    pub protocol: String,
}

/// A section containing multiple entries with styling metadata.
#[derive(Debug, Clone, PartialEq, Eq)]
pub struct Section {
    pub id: String,
    pub title: String,
    pub icon: String,
    pub color: String,
    pub entries: Vec<Entry>,
}

/// Metadata for the entire guide.
#[derive(Debug, Clone, PartialEq, Eq)]
pub struct Meta {
    pub title: String,
    pub subtitle: String,
    pub version: String,
    pub context: String,
    pub date: String,
}

/// Complete Field Guide data.
#[derive(Debug, Clone)]
pub struct FieldGuideData {
    pub meta: Meta,
    pub sections: Vec<Section>,
}

/// A record within a sanctuary program.
#[derive(Debug, Clone, PartialEq, Eq)]
pub struct Record {
    pub id: String,
    pub name: String,
    pub description: String,
    pub steps: Vec<String>,
    pub status: RecordStatus,
}

/// Status of a record.
#[derive(Debug, Clone, Copy, PartialEq, Eq, Structural)]
pub enum RecordStatus {
    Operational,
    Caution,
    Degraded,
    Critical,
}

impl RecordStatus {
    /// The upper-case name under which a status is shown and stored.
    pub open spec fn name(self) -> Seq<char> {
        match self {
            RecordStatus::Operational => "OPERATIONAL"@,
            RecordStatus::Caution => "CAUTION"@,
            RecordStatus::Degraded => "DEGRADED"@,
            RecordStatus::Critical => "CRITICAL"@,
        }
    }

    /// The status's name as a `String`.
    pub fn to_string(&self) -> (r: String)
        ensures
            r@ == self.name(),
    {
        match self {
            RecordStatus::Operational => String::from_str("OPERATIONAL"),
            RecordStatus::Caution => String::from_str("CAUTION"),
            RecordStatus::Degraded => String::from_str("DEGRADED"),
            RecordStatus::Critical => String::from_str("CRITICAL"),
        }
    }
}

/// A program containing multiple records.
#[derive(Debug, Clone)]
pub struct Program {
    pub id: String,
    pub title: String,
    pub icon: String,
    pub color: String,
    pub records: Vec<Record>,
}

/// System metrics for the sanctuary.
#[derive(Debug, Clone)]
pub struct Metrics {
    pub focus: u8,
    pub energy: u8,
    pub stability: u8,
    pub creativity: u8,
    pub last_reset: String,
}

/// Sanctuary metadata.
#[derive(Debug, Clone)]
pub struct SanctuaryMeta {
    pub title: String,
    pub subtitle: String,
    pub version: String,
    pub status: String,
}

/// Complete Glitch Sanctuary data.
#[derive(Debug, Clone)]
pub struct GlitchSanctuaryData {
    pub meta: SanctuaryMeta,
    pub metrics: Metrics,
    pub programs: Vec<Program>,
}

/// Available views in the application.
#[derive(Debug, Clone, Copy, PartialEq, Eq, Structural)]
pub enum View {
    FieldGuide,
    GlitchSanctuary,
}

/// The view that a name selects: "field-guide" or "guide" for the guide,
/// "glitch-sanctuary" or "sanctuary" for the sanctuary, nothing for any other text.
pub open spec fn view_named(s: Seq<char>) -> Option<View> {
    if s == "field-guide"@ || s == "guide"@ {
        Some(View::FieldGuide)
    } else if s == "glitch-sanctuary"@ || s == "sanctuary"@ {
        Some(View::GlitchSanctuary)
    } else {
        None
    }
}

impl View {
    /// The name under which a view is shown.
    pub open spec fn name(self) -> Seq<char> {
        match self {
            View::FieldGuide => "field-guide"@,
            View::GlitchSanctuary => "glitch-sanctuary"@,
        }
    }

    /// The other of the two views.
    pub open spec fn other(self) -> View {
        match self {
            View::FieldGuide => View::GlitchSanctuary,
            View::GlitchSanctuary => View::FieldGuide,
        }
    }

    /// The view's name as a `String`.
    pub fn to_string(&self) -> (r: String)
        ensures
            r@ == self.name(),
    {
        match self {
            View::FieldGuide => String::from_str("field-guide"),
            View::GlitchSanctuary => String::from_str("glitch-sanctuary"),
        }
    }

    /// Parses a view name.
    pub fn from_str(s: &str) -> (r: Option<View>)
        ensures
            r == view_named(s@),
    {
        if same_text(s, "field-guide") || same_text(s, "guide") {
            Some(View::FieldGuide)
        } else if same_text(s, "glitch-sanctuary") || same_text(s, "sanctuary") {
            Some(View::GlitchSanctuary)
        } else {
            None
        }
    }
}

} // verus!
