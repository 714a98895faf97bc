use vstd::prelude::*;

verus! {

/// A privacy-gated capability whose authorization status can be queried.
#[derive(Debug, Clone, Copy, PartialEq, Eq, Structural)]
pub enum Permission {
    Calendar,
    Contacts,
    FullDiskAccess,
    Photos,
    Reminders,
    Accessibility,
    Bluetooth,
    Camera,
    InputMonitoring,
    Microphone,
    ScreenCapture,
    SpeechRecognition,
}

/// The canonical identifier under which the status source knows a capability.
pub open spec fn identifier(p: Permission) -> Seq<char> {
    match p {
        Permission::Calendar => "calendar"@,
        Permission::Contacts => "contacts"@,
        Permission::FullDiskAccess => "full-disk-access"@,
        Permission::Photos => "photos"@,
        Permission::Reminders => "reminders"@,
        Permission::Accessibility => "accessibility"@,
        Permission::Bluetooth => "bluetooth"@,
        Permission::Camera => "camera"@,
        Permission::InputMonitoring => "input-monitoring"@,
        Permission::Microphone => "microphone"@,
        Permission::ScreenCapture => "screen-capture"@,
        Permission::SpeechRecognition => "speech-recognition"@,
    }
}

impl Permission {
    /// The canonical identifier of this capability.
    pub fn to_str(&self) -> (r: &'static str)
        ensures
            r@ == identifier(*self),
    {
        match self {
            Permission::Calendar => "calendar",
            Permission::Contacts => "contacts",
            Permission::FullDiskAccess => "full-disk-access",
            Permission::Photos => "photos",
            Permission::Reminders => "reminders",
            Permission::Accessibility => "accessibility",
            Permission::Bluetooth => "bluetooth",
            Permission::Camera => "camera",
            Permission::InputMonitoring => "input-monitoring",
            Permission::Microphone => "microphone",
            Permission::ScreenCapture => "screen-capture",
            Permission::SpeechRecognition => "speech-recognition",
        }
    }
}

/// Every capability has a non-empty identifier, and no two capabilities share one.
pub proof fn lemma_identifier_nonempty_injective(a: Permission, b: Permission)
    ensures
        identifier(a).len() > 0,
        identifier(a) == identifier(b) ==> a == b,
{
    reveal_strlit("calendar");
    reveal_strlit("contacts");
    reveal_strlit("full-disk-access");
    reveal_strlit("photos");
    reveal_strlit("reminders");
    reveal_strlit("accessibility");
    reveal_strlit("bluetooth");
    reveal_strlit("camera");
    reveal_strlit("input-monitoring");
    reveal_strlit("microphone");
    reveal_strlit("screen-capture");
    reveal_strlit("speech-recognition");
    let (x, y) = (identifier(a), identifier(b));
    if x == y {
        assert(x.len() == y.len() && x[0] == y[0] && x[1] == y[1]);
        match b {
            Permission::Calendar => assert(y.len() == 8 && y[1] == 'a'),
            Permission::Contacts => assert(y.len() == 8 && y[1] == 'o'),
            Permission::FullDiskAccess => assert(y.len() == 16 && y[0] == 'f'),
            Permission::Photos => assert(y.len() == 6 && y[0] == 'p'),
            Permission::Reminders => assert(y.len() == 9 && y[0] == 'r'),
            Permission::Accessibility => assert(y.len() == 13),
            Permission::Bluetooth => assert(y.len() == 9 && y[0] == 'b'),
            Permission::Camera => assert(y.len() == 6 && y[0] == 'c'),
            Permission::InputMonitoring => assert(y.len() == 16 && y[0] == 'i'),
            Permission::Microphone => assert(y.len() == 10),
            Permission::ScreenCapture => assert(y.len() == 14),
            Permission::SpeechRecognition => assert(y.len() == 18),
        }
    }
}

} // verus!
