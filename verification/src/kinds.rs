//! Widget board enumerations shared with the Windows widget host.
//!
//! The host encodes each of these as a 32-bit integer (`i4`); the library keeps
//! the named values as variants and any other value as it came.
use vstd::prelude::*;

verus! {

/// Size of a widget on the board.
#[derive(Clone, Copy, Debug, PartialEq, Eq, Structural)]
pub enum WidgetSize {
    Small,
    Medium,
    Large,
    /// A value the host sent that names none of the sizes above.
    Other(i32),
}

/// The host's integer for a named widget size.
pub open spec fn widget_size_code_spec(size: WidgetSize) -> i32 {
    match size {
        WidgetSize::Small => 0,
        WidgetSize::Medium => 1,
        WidgetSize::Large => 2,
        WidgetSize::Other(c) => c,
    }
}

/// The widget size that the host's integer names.
pub open spec fn widget_size_from_code_spec(code: i32) -> WidgetSize {
    if code == 0 {
        WidgetSize::Small
    } else if code == 1 {
        WidgetSize::Medium
    } else if code == 2 {
        WidgetSize::Large
    } else {
        WidgetSize::Other(code)
    }
}

/// A size is well formed when `Other` holds no value that has a name.
pub open spec fn widget_size_wf(size: WidgetSize) -> bool {
    match size {
        WidgetSize::Other(c) => c != 0 && c != 1 && c != 2,
        _ => true,
    }
}

impl WidgetSize {
    /// Reads the host's integer encoding of a widget size.
    pub fn from_code(code: i32) -> (r: WidgetSize)
        ensures
            r == widget_size_from_code_spec(code),
            widget_size_wf(r),
    {
        if code == 0 {
            WidgetSize::Small
        } else if code == 1 {
            WidgetSize::Medium
        } else if code == 2 {
            WidgetSize::Large
        } else {
            WidgetSize::Other(code)
        }
    }

    /// The host's integer encoding of this widget size.
    pub fn code(&self) -> (r: i32)
        ensures
            r == widget_size_code_spec(*self),
    {
        match self {
            WidgetSize::Small => 0,
            WidgetSize::Medium => 1,
            WidgetSize::Large => 2,
            WidgetSize::Other(c) => *c,
        }
    }
}

/// Reading a code and writing it back gives the same code, and a well formed
/// size survives the round trip the other way.
pub proof fn lemma_widget_size_code_round_trip(code: i32, size: WidgetSize)
    requires
        widget_size_wf(size),
    ensures
        widget_size_code_spec(widget_size_from_code_spec(code)) == code,
        widget_size_from_code_spec(widget_size_code_spec(size)) == size,
{
}

/// Key of a widget size in the card builders: `"Small"`, `"Large"`, and
/// `"Medium"` for every other size.
pub open spec fn size_key(size: WidgetSize) -> Seq<char> {
    match size {
        WidgetSize::Small => "Small"@,
        WidgetSize::Large => "Large"@,
        _ => "Medium"@,
    }
}

/// Maps a widget size to the string key expected by the card builders.
pub fn widget_size_to_str(size: WidgetSize) -> (r: &'static str)
    ensures
        r@ == size_key(size),
{
    match size {
        WidgetSize::Small => "Small",
        WidgetSize::Large => "Large",
        _ => "Medium",
    }
}

/// Kind of an announcement action reported by the widget host.
#[derive(Clone, Copy, Debug, PartialEq, Eq, Structural)]
pub enum AnnouncementActionKind {
    Shown,
    Engaged,
    /// A value the host sent that names no kind above.
    Other(i32),
}

impl AnnouncementActionKind {
    /// Reads the host's integer encoding of an announcement action kind.
    pub fn from_code(code: i32) -> (r: AnnouncementActionKind)
        ensures
            code == 0 ==> r == AnnouncementActionKind::Shown,
            code == 1 ==> r == AnnouncementActionKind::Engaged,
            code != 0 && code != 1 ==> r == AnnouncementActionKind::Other(code),
    {
        if code == 0 {
            AnnouncementActionKind::Shown
        } else if code == 1 {
            AnnouncementActionKind::Engaged
        } else {
            AnnouncementActionKind::Other(code)
        }
    }

    /// The host's integer encoding of this kind.
    pub fn code(&self) -> (r: i32)
        ensures
            r == match *self {
                AnnouncementActionKind::Shown => 0i32,
                AnnouncementActionKind::Engaged => 1i32,
                AnnouncementActionKind::Other(c) => c,
            },
    {
        match self {
            AnnouncementActionKind::Shown => 0,
            AnnouncementActionKind::Engaged => 1,
            AnnouncementActionKind::Other(c) => *c,
        }
    }
}

/// Text color of an announcement, as the widget host names it.
#[derive(Clone, Copy, Debug, PartialEq, Eq, Structural)]
pub enum AnnouncementTextColor {
    Default,
    Dark,
    Light,
    Accent,
    Good,
    Warning,
    Attention,
    /// A value the host sent that names no color above.
    Other(i32),
}

/// The host's integer for an announcement text color.
pub open spec fn text_color_code_spec(color: AnnouncementTextColor) -> i32 {
    match color {
        AnnouncementTextColor::Default => 0,
        AnnouncementTextColor::Dark => 1,
        AnnouncementTextColor::Light => 2,
        AnnouncementTextColor::Accent => 3,
        AnnouncementTextColor::Good => 4,
        AnnouncementTextColor::Warning => 5,
        AnnouncementTextColor::Attention => 6,
        AnnouncementTextColor::Other(c) => c,
    }
}

impl AnnouncementTextColor {
    /// Reads the host's integer encoding of a text color.
    pub fn from_code(code: i32) -> (r: AnnouncementTextColor)
        ensures
            text_color_code_spec(r) == code,
            0 <= code <= 6 <==> !(r is Other),
    {
        if code == 0 {
            AnnouncementTextColor::Default
        } else if code == 1 {
            AnnouncementTextColor::Dark
        } else if code == 2 {
            AnnouncementTextColor::Light
        } else if code == 3 {
            AnnouncementTextColor::Accent
        } else if code == 4 {
            AnnouncementTextColor::Good
        } else if code == 5 {
            AnnouncementTextColor::Warning
        } else if code == 6 {
            AnnouncementTextColor::Attention
        } else {
            AnnouncementTextColor::Other(code)
        }
    }

    /// The host's integer encoding of this color.
    pub fn code(&self) -> (r: i32)
        ensures
            r == text_color_code_spec(*self),
    {
        match self {
            AnnouncementTextColor::Default => 0,
            AnnouncementTextColor::Dark => 1,
            AnnouncementTextColor::Light => 2,
            AnnouncementTextColor::Accent => 3,
            AnnouncementTextColor::Good => 4,
            AnnouncementTextColor::Warning => 5,
            AnnouncementTextColor::Attention => 6,
            AnnouncementTextColor::Other(c) => *c,
        }
    }
}

/// The visual template installed on the widget board.
#[derive(Clone, Copy, Debug, PartialEq, Eq, Structural)]
pub enum TemplateKind {
    Live,
    Settings,
}

impl Default for TemplateKind {
    fn default() -> (r: TemplateKind)
        ensures
            r == TemplateKind::Live,
    {
        TemplateKind::Live
    }
}

} // verus!
