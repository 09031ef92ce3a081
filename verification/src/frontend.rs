//! What the desktop shell's frontend is told about the backend.
//!
//! Once a port is known it is published to the embedded browser context as a
//! one-time global value available at load time; it never changes for the
//! life of the process.

use crate::text::dec_digits;
use crate::text::decimal_string;
use vstd::prelude::*;

verus! {

/// The fixed port a separately run backend is expected on when the shell
/// does not spawn one itself.
pub const DEV_FALLBACK_PORT: u16 = 8000;

/// The script the shell evaluates in the frontend window to publish the
/// backend port as a global value.
pub fn port_injection_script(port: u16) -> (s: String)
    ensures
        s@ == "window.__SUZENT_BACKEND_PORT__ = "@ + dec_digits(port as nat) + ";"@,
{
    let mut s = "window.__SUZENT_BACKEND_PORT__ = ".to_owned();
    let numeral = decimal_string(port);
    s.append(numeral.as_str());
    s.append(";");
    proof {
        assert(s@ =~= "window.__SUZENT_BACKEND_PORT__ = "@ + dec_digits(port as nat) + ";"@);
    }
    s
}

} // verus!
