use vstd::prelude::*;
use vstd::string::StringSliceAdditionalSpecFns;
use vstd::utf8::encode_utf8_decode_utf8;

verus! {

/// A keyboard command of the player whose turn it is.
#[derive(PartialEq, Eq, Structural, Clone, Copy, Debug)]
pub enum KeyCommand {
    /// Decrease the cannon angle.
    AimLeft,
    /// Increase the cannon angle.
    AimRight,
    PowerUp,
    PowerDown,
    Fire,
}

/// The command bound to a key name, as browsers name keys.
pub open spec fn command_of_key(key: Seq<char>) -> Option<KeyCommand> {
    if key == "ArrowLeft"@ {
        Some(KeyCommand::AimLeft)
    } else if key == "ArrowRight"@ {
        Some(KeyCommand::AimRight)
    } else if key == "ArrowUp"@ {
        Some(KeyCommand::PowerUp)
    } else if key == "ArrowDown"@ {
        Some(KeyCommand::PowerDown)
    } else if key == " "@ {
        Some(KeyCommand::Fire)
    } else {
        None
    }
}

/// Compares two strings by their UTF-8 bytes.
fn same_text(a: &str, b: &str) -> (r: bool)
    ensures
        r == (a@ == b@),
{
    let x = a.as_bytes();
    let y = b.as_bytes();
    proof {
        encode_utf8_decode_utf8(a@);
        encode_utf8_decode_utf8(b@);
    }
    if x.len() != y.len() {
        return false;
    }
    let mut i: usize = 0;
    while i < x.len()
        invariant
            x@ == a.spec_bytes(),
            y@ == b.spec_bytes(),
            x@.len() == y@.len(),
            i <= x@.len(),
            forall|j: int| 0 <= j < i ==> x@[j] == y@[j],
        decreases x@.len() - i,
    {
        if x[i] != y[i] {
            return false;
        }
        i = i + 1;
    }
    assert(x@ =~= y@);
    true
}

/// The command bound to `key`, or `None` for a key the game does not use.
pub fn key_command(key: &str) -> (r: Option<KeyCommand>)
    ensures
        r == command_of_key(key@),
{
    if same_text(key, "ArrowLeft") {
        Some(KeyCommand::AimLeft)
    } else if same_text(key, "ArrowRight") {
        Some(KeyCommand::AimRight)
    } else if same_text(key, "ArrowUp") {
        Some(KeyCommand::PowerUp)
    } else if same_text(key, "ArrowDown") {
        Some(KeyCommand::PowerDown)
    } else if same_text(key, " ") {
        Some(KeyCommand::Fire)
    } else {
        None
    }
}

} // verus!
