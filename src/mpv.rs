//! The MPV JSON-IPC bookkeeping: the observed properties by integer id, the
//! rolling request id, and which events matter to the session.
use vstd::prelude::*;
use crate::text::to_owned_text;

verus! {

/// The properties the client observes, each under its own id.
#[derive(Debug, Clone, Copy, PartialEq, Eq, Structural)]
pub enum PropertyId {
    TimePos,
    Pause,
    Filename,
    Duration,
    Path,
    Speed,
}

pub open spec fn id_of(p: PropertyId) -> u64 {
    match p {
        PropertyId::TimePos => 1,
        PropertyId::Pause => 2,
        PropertyId::Filename => 3,
        PropertyId::Duration => 4,
        PropertyId::Path => 5,
        PropertyId::Speed => 6,
    }
}

pub open spec fn property_of(id: u64) -> Option<PropertyId> {
    if id == 1 {
        Some(PropertyId::TimePos)
    } else if id == 2 {
        Some(PropertyId::Pause)
    } else if id == 3 {
        Some(PropertyId::Filename)
    } else if id == 4 {
        Some(PropertyId::Duration)
    } else if id == 5 {
        Some(PropertyId::Path)
    } else if id == 6 {
        Some(PropertyId::Speed)
    } else {
        None
    }
}

pub open spec fn name_of(p: PropertyId) -> Seq<char> {
    match p {
        PropertyId::TimePos => "time-pos"@,
        PropertyId::Pause => "pause"@,
        PropertyId::Filename => "filename"@,
        PropertyId::Duration => "duration"@,
        PropertyId::Path => "path"@,
        PropertyId::Speed => "speed"@,
    }
}

impl PropertyId {
    pub fn as_u64(self) -> (r: u64)
        ensures
            r == id_of(self),
    {
        match self {
            PropertyId::TimePos => 1,
            PropertyId::Pause => 2,
            PropertyId::Filename => 3,
            PropertyId::Duration => 4,
            PropertyId::Path => 5,
            PropertyId::Speed => 6,
        }
    }

    pub fn from_u64(id: u64) -> (r: Option<PropertyId>)
        ensures
            r == property_of(id),
    {
        if id == 1 {
            Some(PropertyId::TimePos)
        } else if id == 2 {
            Some(PropertyId::Pause)
        } else if id == 3 {
            Some(PropertyId::Filename)
        } else if id == 4 {
            Some(PropertyId::Duration)
        } else if id == 5 {
            Some(PropertyId::Path)
        } else if id == 6 {
            Some(PropertyId::Speed)
        } else {
            None
        }
    }

    /// The property's name in MPV.
    pub fn property_name(self) -> (r: &'static str)
        ensures
            r@ == name_of(self),
    {
        match self {
            PropertyId::TimePos => "time-pos",
            PropertyId::Pause => "pause",
            PropertyId::Filename => "filename",
            PropertyId::Duration => "duration",
            PropertyId::Path => "path",
            PropertyId::Speed => "speed",
        }
    }
}

/// Each property's id reads back as that property.
pub proof fn lemma_property_id_round_trip(p: PropertyId)
    ensures
        property_of(id_of(p)) == Some(p),
{
}

/// Request ids, handed out in turn and wrapping at the end of `u64`.
#[derive(Debug, Clone, Copy, PartialEq, Eq, Structural)]
pub struct RequestIds {
    pub next: u64,
}

impl RequestIds {
    pub fn new() -> (r: Self)
        ensures
            r.next == 0,
    {
        RequestIds { next: 0 }
    }

    /// The next request id.
    pub fn allocate(&mut self) -> (r: u64)
        ensures
            r == old(self).next,
            final(self).next == if old(self).next == u64::MAX {
                0
            } else {
                (old(self).next + 1) as u64
            },
    {
        let r = self.next;
        self.next = if self.next == u64::MAX {
            0
        } else {
            self.next + 1
        };
        r
    }
}

/// What an MPV event means to the session.
#[derive(Debug, Clone, Copy, PartialEq, Eq, Structural)]
pub enum MpvPlayerEvent {
    /// Playback reached the end of the file.
    EndOfFile,
    /// A file was loaded.
    FileLoaded,
    /// The player is shutting down.
    Shutdown,
    /// Anything else.
    Other,
}

pub open spec fn event_of(name: Seq<char>, reason: Option<Seq<char>>) -> MpvPlayerEvent {
    if name == "end-file"@ && reason == Some("eof"@) {
        MpvPlayerEvent::EndOfFile
    } else if name == "file-loaded"@ {
        MpvPlayerEvent::FileLoaded
    } else if name == "shutdown"@ {
        MpvPlayerEvent::Shutdown
    } else {
        MpvPlayerEvent::Other
    }
}

impl MpvPlayerEvent {
    /// Reads an event by its name and, for `end-file`, its reason.
    pub fn from_event_name(name: &str, reason: Option<&str>) -> (r: MpvPlayerEvent)
        ensures
            r == event_of(
                name@,
                match reason {
                    Some(x) => Some(x@),
                    None => None,
                },
            ),
    {
        let n = to_owned_text(name);
        let eof = match reason {
            Some(x) => to_owned_text(x) == to_owned_text("eof"),
            None => false,
        };
        if n == to_owned_text("end-file") && eof {
            MpvPlayerEvent::EndOfFile
        } else if n == to_owned_text("file-loaded") {
            MpvPlayerEvent::FileLoaded
        } else if n == to_owned_text("shutdown") {
            MpvPlayerEvent::Shutdown
        } else {
            MpvPlayerEvent::Other
        }
    }
}

} // verus!
