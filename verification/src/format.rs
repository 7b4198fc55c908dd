//! The two enumerations of the request, and their names on the wire.

use vstd::prelude::*;
use vstd::string::StringExecFns;

verus! {

/// Image format of a screenshot.
#[derive(Debug, Clone, Copy, PartialEq, Eq, Structural)]
pub enum ImageFormat {
    /// PNG, which the service assumes when no format is sent.
    Png,
    /// JPEG.
    Jpeg,
    /// WebP.
    Webp,
}

/// The point at which the page counts as loaded.
#[derive(Debug, Clone, Copy, PartialEq, Eq, Structural)]
pub enum WaitUntil {
    /// The load event has fired.
    Load,
    /// The DOMContentLoaded event has fired.
    DomContentLoaded,
    /// The network has been idle for a while; assumed when nothing is sent.
    NetworkIdle,
}

impl ImageFormat {
    /// The lower-case name under which the format travels.
    pub open spec fn spec_wire_name(self) -> Seq<char> {
        match self {
            ImageFormat::Png => "png"@,
            ImageFormat::Jpeg => "jpeg"@,
            ImageFormat::Webp => "webp"@,
        }
    }

    /// The format that a wire name stands for, if it is one of the three.
    pub open spec fn spec_from_wire_name(name: Seq<char>) -> Option<ImageFormat> {
        if name == "png"@ {
            Some(ImageFormat::Png)
        } else if name == "jpeg"@ {
            Some(ImageFormat::Jpeg)
        } else if name == "webp"@ {
            Some(ImageFormat::Webp)
        } else {
            None
        }
    }

    /// The lower-case name under which the format travels.
    pub fn wire_name(self) -> (name: &'static str)
        ensures
            name@ == self.spec_wire_name(),
    {
        match self {
            ImageFormat::Png => "png",
            ImageFormat::Jpeg => "jpeg",
            ImageFormat::Webp => "webp",
        }
    }

    /// Reads a wire name back; `None` for any other text.
    pub fn from_wire_name(name: &str) -> (format: Option<ImageFormat>)
        ensures
            format == Self::spec_from_wire_name(name@),
    {
        let owned = String::from_str(name);
        if owned.eq(&String::from_str("png")) {
            Some(ImageFormat::Png)
        } else if owned.eq(&String::from_str("jpeg")) {
            Some(ImageFormat::Jpeg)
        } else if owned.eq(&String::from_str("webp")) {
            Some(ImageFormat::Webp)
        } else {
            None
        }
    }
}

impl Default for ImageFormat {
    fn default() -> (format: ImageFormat)
        ensures
            format == ImageFormat::Png,
    {
        ImageFormat::Png
    }
}

impl WaitUntil {
    /// The snake-case name under which the signal travels.
    pub open spec fn spec_wire_name(self) -> Seq<char> {
        match self {
            WaitUntil::Load => "load"@,
            WaitUntil::DomContentLoaded => "dom_content_loaded"@,
            WaitUntil::NetworkIdle => "network_idle"@,
        }
    }

    /// The signal that a wire name stands for, if it is one of the three.
    pub open spec fn spec_from_wire_name(name: Seq<char>) -> Option<WaitUntil> {
        if name == "load"@ {
            Some(WaitUntil::Load)
        } else if name == "dom_content_loaded"@ {
            Some(WaitUntil::DomContentLoaded)
        } else if name == "network_idle"@ {
            Some(WaitUntil::NetworkIdle)
        } else {
            None
        }
    }

    /// The snake-case name under which the signal travels.
    pub fn wire_name(self) -> (name: &'static str)
        ensures
            name@ == self.spec_wire_name(),
    {
        match self {
            WaitUntil::Load => "load",
            WaitUntil::DomContentLoaded => "dom_content_loaded",
            WaitUntil::NetworkIdle => "network_idle",
        }
    }

    /// Reads a wire name back; `None` for any other text.
    pub fn from_wire_name(name: &str) -> (signal: Option<WaitUntil>)
        ensures
            signal == Self::spec_from_wire_name(name@),
    {
        let owned = String::from_str(name);
        if owned.eq(&String::from_str("load")) {
            Some(WaitUntil::Load)
        } else if owned.eq(&String::from_str("dom_content_loaded")) {
            Some(WaitUntil::DomContentLoaded)
        } else if owned.eq(&String::from_str("network_idle")) {
            Some(WaitUntil::NetworkIdle)
        } else {
            None
        }
    }
}

impl Default for WaitUntil {
    fn default() -> (signal: WaitUntil)
        ensures
            signal == WaitUntil::NetworkIdle,
    {
        WaitUntil::NetworkIdle
    }
}

/// Writing an image format's wire name and reading it back gives the format
/// again, and no two formats share a name.
pub proof fn lemma_image_format_round_trip(format: ImageFormat)
    ensures
        ImageFormat::spec_from_wire_name(format.spec_wire_name()) == Some(format),
        forall|other: ImageFormat|
            other.spec_wire_name() == format.spec_wire_name() ==> other == format,
{
    reveal_strlit("png");
    reveal_strlit("jpeg");
    reveal_strlit("webp");
    assert("png"@.len() == 3 && "jpeg"@.len() == 4);
    assert("jpeg"@[0] == 'j' && "webp"@[0] == 'w');
}

/// Writing a wait signal's wire name and reading it back gives the signal
/// again, and no two signals share a name.
pub proof fn lemma_wait_until_round_trip(signal: WaitUntil)
    ensures
        WaitUntil::spec_from_wire_name(signal.spec_wire_name()) == Some(signal),
        forall|other: WaitUntil|
            other.spec_wire_name() == signal.spec_wire_name() ==> other == signal,
{
    reveal_strlit("load");
    reveal_strlit("dom_content_loaded");
    reveal_strlit("network_idle");
    assert("load"@.len() == 4 && "dom_content_loaded"@.len() == 18 && "network_idle"@.len() == 12);
}

} // verus!
