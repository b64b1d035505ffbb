use vstd::prelude::*;

verus! {

/// How an animation clip plays: once, in a loop, or holding its frame.
#[derive(Clone, Copy, Debug, PartialEq, Eq, Structural)]
pub enum PlayMode {
    OneShot,
    Loop,
    Hold,
}

/// The clips that the systems start, by their name in the sprite sheets.
#[derive(Clone, Copy, Debug, PartialEq, Eq, Structural)]
pub enum ClipName {
    Ready,
    Winding,
    Pitching,
    NotReady,
    NoBar,
    Bar,
    Pointer,
}

impl ClipName {
    /// The name under which the sprite sheet defines the clip.
    pub open spec fn sheet_name(self) -> Seq<char> {
        match self {
            ClipName::Ready => "Ready"@,
            ClipName::Winding => "Winding"@,
            ClipName::Pitching => "Pitching"@,
            ClipName::NotReady => "Not Ready"@,
            ClipName::NoBar => "No Bar"@,
            ClipName::Bar => "Bar"@,
            ClipName::Pointer => "Default"@,
        }
    }

    pub fn label(&self) -> (r: String)
        ensures
            r@ == self.sheet_name(),
    {
        match self {
            ClipName::Ready => "Ready".to_string(),
            ClipName::Winding => "Winding".to_string(),
            ClipName::Pitching => "Pitching".to_string(),
            ClipName::NotReady => "Not Ready".to_string(),
            ClipName::NoBar => "No Bar".to_string(),
            ClipName::Bar => "Bar".to_string(),
            ClipName::Pointer => "Default".to_string(),
        }
    }
}

/// Which clip a component plays and how. The playback itself (frame cursor,
/// whether a one-shot clip has drained, the current cell) belongs to the
/// animation player that runs the clip.
#[derive(Clone, Copy, Debug, PartialEq, Eq, Structural)]
pub struct Clip {
    pub name: ClipName,
    pub mode: PlayMode,
}

impl Clip {
    pub fn new(name: ClipName, mode: PlayMode) -> (r: Self)
        ensures
            r.name == name,
            r.mode == mode,
    {
        Clip { name, mode }
    }
}

/// The clip option names the given clip.
pub open spec fn plays(clip: Option<Clip>, name: ClipName) -> bool {
    clip matches Some(c) && c.name == name
}

pub fn is_playing(clip: &Option<Clip>, name: ClipName) -> (r: bool)
    ensures
        r == plays(*clip, name),
{
    match clip {
        Some(c) => c.name == name,
        None => false,
    }
}

} // verus!
