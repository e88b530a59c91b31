//! Host-side platform state and status reporting.
//!
//! The platform behaves like a state machine and only accepts certain
//! requests in certain states; these types carry what the firmware reports
//! about itself, decoded from the raw little-endian response words.

use vstd::prelude::*;

use vstd::string::StringExecFns;

verus! {

/// The platform state.
///
/// The underlying platform behaves like a state machine and can only perform
/// certain actions while it is in certain states.
#[derive(Clone, Copy, Debug, PartialEq, Eq, Structural)]
pub enum State {
    /// The platform is uninitialized.
    Uninitialized,
    /// The platform is initialized, but not currently managing any guests.
    Initialized,
    /// The platform is initialized and is overseeing execution of encrypted
    /// guests.
    Working,
}

impl State {
    /// The state a raw status word stands for, if recognized.
    pub fn from_raw(raw: u8) -> (r: Option<State>)
        ensures
            raw == 0 ==> r == Some(State::Uninitialized),
            raw == 1 ==> r == Some(State::Initialized),
            raw == 2 ==> r == Some(State::Working),
            raw > 2 ==> r is None,
    {
        match raw {
            0 => Some(State::Uninitialized),
            1 => Some(State::Initialized),
            2 => Some(State::Working),
            _ => None,
        }
    }

    /// The state's name, as status displays print it.
    pub fn label(&self) -> (r: &'static str)
        ensures
            *self is Uninitialized ==> r@ == "uninitialized"@,
            *self is Initialized ==> r@ == "initialized"@,
            *self is Working ==> r@ == "working"@,
    {
        match self {
            State::Uninitialized => "uninitialized",
            State::Initialized => "initialized",
            State::Working => "working",
        }
    }
}

/// Additional platform information, decoded from the status flag word.
#[derive(Clone, Copy, Debug, PartialEq, Eq, Structural)]
pub struct PlatformStatusFlags {
    /// If set, this platform is owned; otherwise it is self-owned.
    pub owned: bool,
    /// If set, encrypted state functionality is present.
    pub encrypted_state: bool,
}

impl PlatformStatusFlags {
    /// Decode the flag word: ownership is bit 0 and encrypted state bit 8;
    /// the remaining bits carry no meaning here.
    pub fn from_bits(bits: u32) -> (r: PlatformStatusFlags)
        ensures
            r.owned == (bits & 0x1 != 0),
            r.encrypted_state == (bits & 0x100 != 0),
    {
        PlatformStatusFlags { owned: bits & 0x1 != 0, encrypted_state: bits & 0x100 != 0 }
    }
}

impl Default for PlatformStatusFlags {
    /// All flags clear.
    fn default() -> (r: PlatformStatusFlags)
        ensures
            r == (PlatformStatusFlags { owned: false, encrypted_state: false }),
    {
        PlatformStatusFlags { owned: false, encrypted_state: false }
    }
}

/// Information regarding the SEV platform's current status.
#[derive(Clone, Copy, Debug, PartialEq, Eq, Structural)]
pub struct Status {
    /// The build number.
    pub build: crate::Build,
    /// The platform's current state.
    pub state: State,
    /// Additional platform information is encoded into flags.
    pub flags: PlatformStatusFlags,
    /// The number of valid guests supervised by this platform.
    pub guests: u32,
}

/// The CPU-unique identifier for the platform.
#[derive(Clone, Debug, PartialEq, Eq)]
pub struct Identifier(pub Vec<u8>);

impl View for Identifier {
    type V = Seq<u8>;

    open spec fn view(&self) -> Seq<u8> {
        self.0@
    }
}

/// A hexadecimal digit, upper case.
pub open spec fn spec_hex_digit(n: u8) -> char {
    if n == 0 {
        '0'
    } else if n == 1 {
        '1'
    } else if n == 2 {
        '2'
    } else if n == 3 {
        '3'
    } else if n == 4 {
        '4'
    } else if n == 5 {
        '5'
    } else if n == 6 {
        '6'
    } else if n == 7 {
        '7'
    } else if n == 8 {
        '8'
    } else if n == 9 {
        '9'
    } else if n == 10 {
        'A'
    } else if n == 11 {
        'B'
    } else if n == 12 {
        'C'
    } else if n == 13 {
        'D'
    } else if n == 14 {
        'E'
    } else {
        'F'
    }
}

/// The upper-case hexadecimal rendering of a byte sequence, two digits per
/// byte.
pub open spec fn spec_hex_upper(s: Seq<u8>) -> Seq<char>
    decreases s.len(),
{
    if s.len() == 0 {
        Seq::empty()
    } else {
        seq![spec_hex_digit(s[0] / 16), spec_hex_digit(s[0] % 16)] + spec_hex_upper(s.drop_first())
    }
}

/// The one-character string of a hexadecimal digit.
fn nibble_str(n: u8) -> (r: &'static str)
    requires
        n < 16,
    ensures
        r@ == seq![spec_hex_digit(n)],
{
    proof {
        reveal_strlit("0");
        reveal_strlit("1");
        reveal_strlit("2");
        reveal_strlit("3");
        reveal_strlit("4");
        reveal_strlit("5");
        reveal_strlit("6");
        reveal_strlit("7");
        reveal_strlit("8");
        reveal_strlit("9");
        reveal_strlit("A");
        reveal_strlit("B");
        reveal_strlit("C");
        reveal_strlit("D");
        reveal_strlit("E");
        reveal_strlit("F");
    }
    let r = match n {
        0 => "0",
        1 => "1",
        2 => "2",
        3 => "3",
        4 => "4",
        5 => "5",
        6 => "6",
        7 => "7",
        8 => "8",
        9 => "9",
        10 => "A",
        11 => "B",
        12 => "C",
        13 => "D",
        14 => "E",
        _ => "F",
    };
    proof {
        assert(r@ =~= seq![spec_hex_digit(n)]);
    }
    r
}

impl Identifier {
    /// Wrap raw identifier bytes.
    pub fn new(bytes: Vec<u8>) -> (r: Identifier)
        ensures
            r@ == bytes@,
    {
        Identifier(bytes)
    }

    /// The identifier as upper-case hexadecimal text, as it appears in key
    /// server URLs.
    pub fn hex(&self) -> (r: String)
        ensures
            r@ == spec_hex_upper(self@),
    {
        let mut out = String::new();
        let n = self.0.len();
        let mut i: usize = 0;
        #[verifier::loop_isolation(false)]
        while i < n
            invariant
                i <= n,
                out@ == spec_hex_upper(self@.subrange(0, i as int)),
            decreases n - i,
        {
            let b = self.0[i];
            let hi = b / 16;
            let lo = b % 16;
            out.append(nibble_str(hi));
            out.append(nibble_str(lo));
            proof {
                lemma_hex_upper_snoc(self@, i as int);
            }
            i = i + 1;
        }
        proof {
            assert(self@.subrange(0, n as int) =~= self@);
        }
        out
    }
}

/// Rendering one more byte extends the rendering of the bytes before it.
proof fn lemma_hex_upper_snoc(s: Seq<u8>, i: int)
    requires
        0 <= i < s.len(),
    ensures
        spec_hex_upper(s.subrange(0, i + 1)) == spec_hex_upper(s.subrange(0, i)) + seq![
            spec_hex_digit(s[i] / 16),
            spec_hex_digit(s[i] % 16),
        ],
    decreases i,
{
    if i == 0 {
        assert(s.subrange(0, 1) =~= seq![s[0]]);
        assert(s.subrange(0, 1).drop_first() =~= Seq::<u8>::empty());
        assert(spec_hex_upper(s.subrange(0, 0)) =~= Seq::<char>::empty());
        assert(s.subrange(0, 1).len() == 1 && s.subrange(0, 1)[0] == s[0]);
        assert(spec_hex_upper(s.subrange(0, 1)) == seq![
            spec_hex_digit(s.subrange(0, 1)[0] / 16),
            spec_hex_digit(s.subrange(0, 1)[0] % 16),
        ] + spec_hex_upper(s.subrange(0, 1).drop_first()));
        assert(spec_hex_upper(s.subrange(0, 1).drop_first()) == Seq::<char>::empty());
        assert(seq![spec_hex_digit(s[0] / 16), spec_hex_digit(s[0] % 16)] + Seq::<char>::empty()
            =~= seq![spec_hex_digit(s[0] / 16), spec_hex_digit(s[0] % 16)]);
    } else {
        let t1 = s.subrange(0, i + 1);
        let t0 = s.subrange(0, i);
        assert(t1[0] == s[0] && t0[0] == s[0]);
        assert(t1.drop_first() =~= s.drop_first().subrange(0, i));
        assert(t0.drop_first() =~= s.drop_first().subrange(0, i - 1));
        lemma_hex_upper_snoc(s.drop_first(), i - 1);
        assert(s.drop_first()[i - 1] == s[i]);
        assert(spec_hex_upper(t1) =~= seq![spec_hex_digit(s[0] / 16), spec_hex_digit(s[0] % 16)]
            + spec_hex_upper(s.drop_first().subrange(0, i)));
        assert(spec_hex_upper(t0) + seq![spec_hex_digit(s[i] / 16), spec_hex_digit(s[i] % 16)] =~= seq![
            spec_hex_digit(s[0] / 16),
            spec_hex_digit(s[0] % 16),
        ] + (spec_hex_upper(s.drop_first().subrange(0, i - 1)) + seq![
            spec_hex_digit(s[i] / 16),
            spec_hex_digit(s[i] % 16),
        ]));
    }
}

impl From<Identifier> for Vec<u8> {
    /// The raw identifier bytes.
    fn from(id: Identifier) -> (r: Vec<u8>) {
        id.0
    }
}

impl vstd::std_specs::convert::FromSpecImpl<Identifier> for Vec<u8> {
    open spec fn obeys_from_spec() -> bool {
        true
    }

    open spec fn from_spec(id: Identifier) -> Vec<u8> {
        id.0
    }
}

/// The version of a SEV-SNP platform's trusted computing base.
#[derive(Clone, Copy, Debug, PartialEq, Eq, Structural)]
pub struct TcbVersion {
    /// The current security version number of the bootloader.
    pub bootloader: u8,
    /// The current security version number of the trusted execution
    /// environment.
    pub tee: u8,
    /// The current security version number of the SNP firmware.
    pub snp: u8,
    /// The lowest current microcode patch level of all cores.
    pub microcode: u8,
}

impl Default for TcbVersion {
    /// The zero version.
    fn default() -> (r: TcbVersion)
        ensures
            r == (TcbVersion { bootloader: 0, tee: 0, snp: 0, microcode: 0 }),
    {
        TcbVersion { bootloader: 0, tee: 0, snp: 0, microcode: 0 }
    }
}

/// A SEV-SNP firmware build: the API version plus a build number.
#[derive(Clone, Copy, Debug, PartialEq, Eq, Structural)]
pub struct SnpBuild {
    /// The API version the firmware implements.
    pub version: crate::Version,
    /// The firmware build number.
    pub build: u32,
}

impl Default for SnpBuild {
    /// The zero build.
    fn default() -> (r: SnpBuild)
        ensures
            r == (SnpBuild {
                version: crate::Version { major: 0, minor: 0 },
                build: 0,
            }),
    {
        SnpBuild { version: crate::Version { major: 0, minor: 0 }, build: 0 }
    }
}

/// Information regarding the SEV-SNP platform's TCB version.
#[derive(Clone, Copy, Debug, PartialEq, Eq, Structural)]
pub struct SnpTcbStatus {
    /// Installed TCB version.
    pub platform_version: TcbVersion,
    /// Reported TCB version.
    pub reported_version: TcbVersion,
}

/// Information regarding the SEV-SNP platform's current status.
#[derive(Clone, Copy, Debug, PartialEq, Eq, Structural)]
pub struct SnpStatus {
    /// The build number.
    pub build: SnpBuild,
    /// The platform's current state.
    pub state: State,
    /// Whether the reverse map table is initialized.
    pub is_rmp_init: bool,
    /// Whether chip identifiers are masked.
    pub mask_chip_id: bool,
    /// The number of valid guests supervised by this platform.
    pub guests: u32,
    /// TCB status.
    pub tcb: SnpTcbStatus,
}

} // verus!
