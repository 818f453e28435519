use vstd::prelude::*;

verus! {

/// Configuration for the daemon: the monitor to drive, the transform table
/// indexed by rotation index, and the services to restart after a change.
/// Reading and parsing the on-disk file stays outside; this type carries the
/// values and their defaults.
pub struct Config {
    pub output: String,
    pub transforms: [u8; 4],
    pub restart_services: Vec<String>,
}

/// Default monitor name when the configuration gives none.
pub fn default_output() -> (r: String)
    ensures
        r@ == "eDP-1"@,
{
    String::from_str("eDP-1")
}

/// Default transform table: the identity mapping from rotation index to
/// transform value.
pub fn default_transforms() -> (r: [u8; 4])
    ensures
        r@ == seq![0u8, 1u8, 2u8, 3u8],
{
    let r: [u8; 4] = [0, 1, 2, 3];
    proof {
        assert(r@ =~= seq![0u8, 1u8, 2u8, 3u8]);
    }
    r
}

impl Default for Config {
    fn default() -> (r: Config)
        ensures
            r.output@ == "eDP-1"@,
            r.transforms@ == seq![0u8, 1u8, 2u8, 3u8],
            r.restart_services@ == Seq::<String>::empty(),
    {
        Config {
            output: default_output(),
            transforms: default_transforms(),
            restart_services: Vec::new(),
        }
    }
}

/// A control-channel instruction: lock buffers orientation requests, unlock
/// releases the buffered one.
#[derive(Debug, PartialEq, Eq, Structural, Clone, Copy)]
pub enum Command {
    Lock,
    Unlock,
}

/// The unsigned value of four bytes read little-endian.
pub open spec fn le_u32_val(b: Seq<u8>) -> int {
    b[0] + b[1] * 0x100 + b[2] * 0x10000 + b[3] * 0x1000000
}

impl Command {
    /// Wire code of the command.
    pub open spec fn code_spec(self) -> u32 {
        match self {
            Command::Lock => 0,
            Command::Unlock => 1,
        }
    }

    /// The command a wire code stands for; codes other than 0 and 1 are not
    /// commands and are discarded by the receiver.
    pub open spec fn from_code_spec(value: u32) -> Option<Command> {
        if value == 0 {
            Some(Command::Lock)
        } else if value == 1 {
            Some(Command::Unlock)
        } else {
            None
        }
    }

    pub fn code(self) -> (r: u32)
        ensures
            r == self.code_spec(),
    {
        match self {
            Command::Lock => 0,
            Command::Unlock => 1,
        }
    }

    pub fn from_code(value: u32) -> (r: Option<Command>)
        ensures
            r == Command::from_code_spec(value),
    {
        if value == 0 {
            Some(Command::Lock)
        } else if value == 1 {
            Some(Command::Unlock)
        } else {
            None
        }
    }

    /// Encode the command as the wire format: a 4-byte little-endian code.
    pub fn encode(self) -> (r: [u8; 4])
        ensures
            r@.len() == 4,
            le_u32_val(r@) == self.code_spec(),
    {
        let code: u32 = self.code();
        let r: [u8; 4] = [
            (code % 0x100) as u8,
            ((code / 0x100) % 0x100) as u8,
            ((code / 0x10000) % 0x100) as u8,
            ((code / 0x1000000) % 0x100) as u8,
        ];
        r
    }

    /// Decode one wire message. A short or long read, or an unknown code, is
    /// discarded rather than surfaced as an error.
    pub fn decode(buf: &[u8]) -> (r: Option<Command>)
        ensures
            buf@.len() == 4 ==> r == Command::from_code_spec(le_u32_val(buf@) as u32),
            buf@.len() != 4 ==> r is None,
    {
        if buf.len() != 4 {
            return None;
        }
        let value: u32 = buf[0] as u32 + buf[1] as u32 * 0x100 + buf[2] as u32 * 0x10000 + buf[3]
            as u32 * 0x1000000;
        Command::from_code(value)
    }
}

/// Encoding a command and decoding the bytes yields the same command back.
pub proof fn lemma_command_round_trip(c: Command, b: Seq<u8>)
    requires
        b.len() == 4,
        le_u32_val(b) == c.code_spec(),
    ensures
        Command::from_code_spec(le_u32_val(b) as u32) == Some(c),
{
}

} // verus!
