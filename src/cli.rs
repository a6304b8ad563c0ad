//! Command-line choices that reach the library as plain values.
use vstd::prelude::*;

verus! {

/// When to colour the console output.
#[derive(Debug, Clone, Copy, PartialEq, Eq, Structural)]
pub enum Color {
    Always,
    Never,
    Auto,
}

impl Default for Color {
    fn default() -> (r: Color)
        ensures
            r == Color::Auto,
    {
        Color::Auto
    }
}

/// The specialist whose system prompt the agent runs with.
#[derive(Debug, Clone, Copy, PartialEq, Eq, Structural)]
pub enum Mode {
    Generalist,
    Verification,
    ActiveDirectory,
    ClientSideWeb,
    Enumeration,
    LinuxPrivesc,
    Shelling,
    WebEnumeration,
    Web,
    WindowsPrivesc,
}

impl Default for Mode {
    fn default() -> (r: Mode)
        ensures
            r == Mode::Generalist,
    {
        Mode::Generalist
    }
}

/// The name under which a mode is known to the engine's configuration.
pub open spec fn mode_name(m: Mode) -> Seq<char> {
    match m {
        Mode::Generalist => "generalist"@,
        Mode::Verification => "verification"@,
        Mode::ActiveDirectory => "active_directory"@,
        Mode::ClientSideWeb => "client_side_web"@,
        Mode::Enumeration => "enumeration"@,
        Mode::LinuxPrivesc => "linux_privesc"@,
        Mode::Shelling => "shelling"@,
        Mode::WebEnumeration => "web_enumeration"@,
        Mode::Web => "web"@,
        Mode::WindowsPrivesc => "windows_privesc"@,
    }
}

impl Mode {
    /// The mode's name, as it is shown and handed to the engine.
    pub fn as_str(&self) -> (r: &'static str)
        ensures
            r@ == mode_name(*self),
    {
        match self {
            Mode::Generalist => "generalist",
            Mode::Verification => "verification",
            Mode::ActiveDirectory => "active_directory",
            Mode::ClientSideWeb => "client_side_web",
            Mode::Enumeration => "enumeration",
            Mode::LinuxPrivesc => "linux_privesc",
            Mode::Shelling => "shelling",
            Mode::WebEnumeration => "web_enumeration",
            Mode::Web => "web",
            Mode::WindowsPrivesc => "windows_privesc",
        }
    }

    /// The mode's name as an owned string.
    pub fn to_string(&self) -> (r: String)
        ensures
            r@ == mode_name(*self),
    {
        self.as_str().to_string()
    }
}

} // verus!
