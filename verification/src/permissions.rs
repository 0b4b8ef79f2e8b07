//! What the operating system lets the application do, and where the user can
//! change that.

use vstd::prelude::*;

verus! {

/// The operating systems that differ in what they allow.
#[derive(Debug, Clone, Copy, PartialEq, Eq, Structural)]
pub enum Platform {
    MacOs,
    Windows,
    Other,
}

/// Whether the microphone may be used.
#[derive(Debug, Clone, Copy, PartialEq, Eq, Structural)]
pub enum MicStatus {
    /// It may.
    Granted,
    /// The user denied it.
    Denied,
    /// The user was not asked yet; the first recording asks.
    NotDetermined,
    /// It is blocked by a policy that the user cannot change.
    Restricted,
}

/// What macOS's authorization number means. `None` is a system that could not be
/// asked, which is taken to allow it; an unknown number counts as not asked yet.
pub open spec fn mic_status_of(raw: Option<isize>) -> MicStatus {
    match raw {
        None => MicStatus::Granted,
        Some(n) => if n == 3 {
            MicStatus::Granted
        } else if n == 2 {
            MicStatus::Denied
        } else if n == 1 {
            MicStatus::Restricted
        } else {
            MicStatus::NotDetermined
        },
    }
}

/// Whether the microphone may be used. Only macOS asks per application; there,
/// `raw` is its authorization number.
pub fn microphone_status(platform: Platform, raw: Option<isize>) -> (r: MicStatus)
    ensures
        r == (if platform == Platform::MacOs {
            mic_status_of(raw)
        } else {
            MicStatus::Granted
        }),
{
    match platform {
        Platform::MacOs => match raw {
            None => MicStatus::Granted,
            Some(n) => if n == 3 {
                MicStatus::Granted
            } else if n == 2 {
                MicStatus::Denied
            } else if n == 1 {
                MicStatus::Restricted
            } else {
                MicStatus::NotDetermined
            },
        },
        _ => MicStatus::Granted,
    }
}

/// Whether keys can be simulated. Only macOS asks for it; there, `trusted` is its
/// answer.
pub fn accessibility_granted(platform: Platform, trusted: bool) -> (r: bool)
    ensures
        r == (platform == Platform::MacOs ==> trusted),
{
    match platform {
        Platform::MacOs => trusted,
        _ => true,
    }
}

/// Whether another application has locked the keyboard, so that simulated keys
/// are swallowed. Only macOS has such a lock; there, `locked` is its answer.
pub fn secure_keyboard_entry_enabled(platform: Platform, locked: bool) -> (r: bool)
    ensures
        r == (platform == Platform::MacOs && locked),
{
    match platform {
        Platform::MacOs => locked,
        _ => false,
    }
}

/// A program with one argument.
#[derive(Debug, Clone, Copy, PartialEq, Eq)]
pub struct Launch {
    pub program: &'static str,
    pub argument: &'static str,
}

/// Whether `l` starts `program` with `argument`.
pub open spec fn launches(l: Option<Launch>, program: Seq<char>, argument: Seq<char>) -> bool {
    l matches Some(x) && x.program@ == program && x.argument@ == argument
}

/// What to start so that the user can allow simulated keys; nothing where no
/// permission is needed.
pub fn open_accessibility_settings(platform: Platform) -> (r: Option<Launch>)
    ensures
        platform == Platform::MacOs ==> launches(
            r,
            "open"@,
            "x-apple.systempreferences:com.apple.preference.security?Privacy_Accessibility"@,
        ),
        platform != Platform::MacOs ==> r is None,
{
    match platform {
        Platform::MacOs => Some(
            Launch {
                program: "open",
                argument: "x-apple.systempreferences:com.apple.preference.security?Privacy_Accessibility",
            },
        ),
        _ => None,
    }
}

/// What to start so that the user can allow the microphone.
pub fn open_mic_settings(platform: Platform) -> (r: Option<Launch>)
    ensures
        match platform {
            Platform::MacOs => launches(
                r,
                "open"@,
                "x-apple.systempreferences:com.apple.preference.security?Privacy_Microphone"@,
            ),
            Platform::Windows => launches(r, "explorer.exe"@, "ms-settings:privacy-microphone"@),
            Platform::Other => r is None,
        },
{
    match platform {
        Platform::MacOs => Some(
            Launch {
                program: "open",
                argument: "x-apple.systempreferences:com.apple.preference.security?Privacy_Microphone",
            },
        ),
        Platform::Windows => Some(
            Launch { program: "explorer.exe", argument: "ms-settings:privacy-microphone" },
        ),
        Platform::Other => None,
    }
}

/// macOS's numbers stand for what they stand for: 3 is allowed, 2 is refused, 1 is
/// blocked; any other has not been asked.
pub proof fn numbers_of_macos_are_known(n: isize)
    ensures
        mic_status_of(Some(n)) == MicStatus::Granted <==> n == 3,
        mic_status_of(Some(n)) == MicStatus::Denied <==> n == 2,
        mic_status_of(Some(n)) == MicStatus::Restricted <==> n == 1,
        mic_status_of(Some(n)) == MicStatus::NotDetermined <==> n < 1 || n > 3,
        mic_status_of(None) == MicStatus::Granted,
{
}

/// What is started is the program with the argument in question.
pub proof fn a_launch_is_for_its_program(
    l: Option<Launch>,
    program: Seq<char>,
    argument: Seq<char>,
)
    requires
        launches(l, program, argument),
    ensures
        l is Some && l->0.program@ == program && l->0.argument@ == argument,
{
}

} // verus!
