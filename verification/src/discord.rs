//! The rich-presence requests the client derives from what is happening in
//! the game: which scene is shown, which stage and character are in play,
//! and the timestamp the presence is anchored to. Delivering a request to
//! the presence service is the caller's business; everything here is the
//! data and the rules for building it.

use vstd::prelude::*;
use vstd::string::StringSliceAdditionalSpecFns;
use crate::melee::{spec_scene_label, MeleeCharacter, MeleeScene, MeleeStage,
    OptionalMeleeCharacter, OptionalMeleeStage, SlippiMenuScene};

verus! {

/// What kind of presence a request asks for.
#[derive(Clone, Copy, Debug, PartialEq, Eq, Structural)]
pub enum DiscordClientRequestType {
    Clear,
    Queue,
    Game,
    Mainmenu,
    Idle,
}

/// How the timestamp of a request is to be interpreted.
#[derive(Clone, Copy, Debug, PartialEq, Eq, Structural)]
pub enum DiscordClientRequestTimestampMode {
    Absent,
    Start,
    /// Like `Start`, but never updated even when the timestamp changes; used
    /// for actions outside a running game.
    Static,
    End,
}

/// The timestamp a presence request is anchored to.
#[derive(Clone, Copy, Debug)]
pub struct DiscordClientRequestTimestamp {
    pub mode: DiscordClientRequestTimestampMode,
    pub timestamp: i64,
}

impl DiscordClientRequestTimestamp {
    /// A request with no timestamp at all.
    pub fn none() -> (r: Self)
        ensures
            r.mode is Absent,
            r.timestamp == 0,
    {
        DiscordClientRequestTimestamp {
            mode: DiscordClientRequestTimestampMode::Absent,
            timestamp: 0,
        }
    }
}

impl PartialEq for DiscordClientRequestTimestamp {
    /// Two timestamps count as equal when the payload is static, or when
    /// they lie within the resynchronization window of each other: if the
    /// game sat in pause for long enough, the payload is deliberately judged
    /// different so the presence is refreshed, and the window is kept wide
    /// to respect the service's rate limit.
    fn eq(&self, o: &Self) -> (r: bool) {
        if self.mode == DiscordClientRequestTimestampMode::Static {
            true
        } else {
            let a: i128 = self.timestamp as i128;
            let b: i128 = o.timestamp as i128;
            let d: i128 = if a >= b {
                a - b
            } else {
                b - a
            };
            d < 15
        }
    }
}

impl vstd::std_specs::cmp::PartialEqSpecImpl for DiscordClientRequestTimestamp {
    open spec fn obeys_eq_spec() -> bool {
        true
    }

    open spec fn eq_spec(&self, o: &Self) -> bool {
        self.mode is Static || vstd::math::abs(self.timestamp - o.timestamp) < 15
    }
}

/// One presence request: what to show, for which scene, stage and
/// character, with its timestamp and the opponent's name when known.
#[derive(Clone, Debug)]
pub struct DiscordClientRequest {
    pub req_type: DiscordClientRequestType,
    pub scene: Option<SlippiMenuScene>,
    pub stage: OptionalMeleeStage,
    pub character: OptionalMeleeCharacter,
    pub mode: String,
    pub timestamp: DiscordClientRequestTimestamp,
    pub opp_name: Option<String>,
}

/// Relies on std::time::SystemTime::now and its distance from the Unix
/// epoch: the whole seconds of Unix time now; zero if the clock reads
/// before the epoch.
#[verifier::external_body]
pub fn current_unix_time() -> (r: i64)
    ensures
        r >= 0,
{
    match std::time::SystemTime::now().duration_since(std::time::UNIX_EPOCH) {
        Ok(d) => d.as_secs().try_into().unwrap_or(i64::MAX),
        Err(_) => 0,
    }
}

impl Default for DiscordClientRequest {
    /// A request that clears the presence, anchored statically at the
    /// current time.
    fn default() -> (r: Self)
        ensures
            r.req_type is Clear,
            r.scene is None,
            r.stage.0 is None,
            r.character.0 is None,
            r.mode@ == Seq::<char>::empty(),
            r.timestamp.mode is Static,
            r.timestamp.timestamp >= 0,
            r.opp_name is None,
    {
        DiscordClientRequest {
            req_type: DiscordClientRequestType::Clear,
            scene: None,
            stage: OptionalMeleeStage(None),
            character: OptionalMeleeCharacter(None),
            mode: String::new(),
            timestamp: DiscordClientRequestTimestamp {
                mode: DiscordClientRequestTimestampMode::Static,
                timestamp: current_unix_time(),
            },
            opp_name: None,
        }
    }
}

impl DiscordClientRequest {
    /// Clears the presence.
    pub fn clear() -> (r: Self)
        ensures
            r.req_type is Clear,
            r.scene is None,
            r.stage.0 is None,
            r.character.0 is None,
            r.mode@ == Seq::<char>::empty(),
            r.timestamp.mode is Static,
            r.timestamp.timestamp >= 0,
            r.opp_name is None,
    {
        Self::default()
    }

    /// Shows the player searching for a match in the given scene.
    pub fn queue(scene: Option<SlippiMenuScene>, character: Option<MeleeCharacter>) -> (r: Self)
        ensures
            r.req_type is Queue,
            r.scene == scene,
            r.character.0 == character,
            r.stage.0 is None,
            r.mode@ == Seq::<char>::empty(),
            r.timestamp.mode is Static,
            r.timestamp.timestamp >= 0,
            r.opp_name is None,
    {
        let base = Self::default();
        DiscordClientRequest {
            req_type: DiscordClientRequestType::Queue,
            scene,
            character: OptionalMeleeCharacter(character),
            ..base
        }
    }

    /// Shows the player idling in the given scene.
    pub fn idle(scene: Option<SlippiMenuScene>, character: Option<MeleeCharacter>) -> (r: Self)
        ensures
            r.req_type is Idle,
            r.scene == scene,
            r.character.0 == character,
            r.stage.0 is None,
            r.mode@ == Seq::<char>::empty(),
            r.timestamp.mode is Static,
            r.timestamp.timestamp >= 0,
            r.opp_name is None,
    {
        let base = Self::default();
        DiscordClientRequest {
            req_type: DiscordClientRequestType::Idle,
            scene,
            character: OptionalMeleeCharacter(character),
            ..base
        }
    }

    /// Shows the player in the main menu.
    pub fn main_menu() -> (r: Self)
        ensures
            r.req_type is Mainmenu,
            r.scene is None,
            r.stage.0 is None,
            r.character.0 is None,
            r.mode@ == Seq::<char>::empty(),
            r.timestamp.mode is Static,
            r.timestamp.timestamp >= 0,
            r.opp_name is None,
    {
        let base = Self::default();
        DiscordClientRequest { req_type: DiscordClientRequestType::Mainmenu, ..base }
    }

    /// Shows a running game on the given stage, with the scene's label as
    /// the mode text. `show_stage_name` settles whether a target-test run
    /// names its stage.
    pub fn game(
        stage: Option<MeleeStage>,
        character: Option<MeleeCharacter>,
        mode: MeleeScene,
        show_stage_name: bool,
        timestamp: DiscordClientRequestTimestamp,
        opp_name: Option<String>,
    ) -> (r: Self)
        requires
            !(mode is SlippiCss),
        ensures
            r.req_type is Game,
            r.scene is None,
            r.stage.0 == stage,
            r.character.0 == character,
            r.mode@ == spec_scene_label(mode, show_stage_name),
            r.timestamp == timestamp,
            r.opp_name == opp_name,
    {
        let base = Self::default();
        DiscordClientRequest {
            req_type: DiscordClientRequestType::Game,
            stage: OptionalMeleeStage(stage),
            character: OptionalMeleeCharacter(character),
            mode: mode.label(show_stage_name),
            timestamp,
            opp_name,
            ..base
        }
    }
}

/// Whether the game client is reachable, as shown in the tray.
#[derive(Clone, Copy, Debug, PartialEq, Eq, Structural)]
pub enum MeleeTrayEvent {
    Connected,
    Disconnected,
}

/// What can go wrong in the presence subsystem.
#[derive(Clone, Debug)]
pub enum DiscordRPCError {
    GenericIO(String),
    ThreadSpawn(String),
    ChannelReceiverDisconnected,
    ChannelSenderDisconnected,
    Unknown,
}

/// A connect code: a tag, a number sign, and a discriminator.
#[derive(Clone, Debug)]
pub struct ConnectCode(pub String);

/// The ASCII lower-casing of one character.
pub open spec fn spec_lower_char(c: char) -> char {
    if 'A' <= c && c <= 'Z' {
        ((c as u8) + 0x20) as char
    } else {
        c
    }
}

/// Relies on str::to_lowercase: on ASCII input, each upper-case letter is
/// mapped to its lower-case counterpart and every other character is kept.
#[verifier::external_body]
fn ascii_to_lowercase(s: &str) -> (r: String)
    ensures
        vstd::string::is_ascii(s) ==> r@ == Seq::new(s@.len(), |i: int| spec_lower_char(s@[i])),
{
    s.to_lowercase()
}

/// Relies on str::replace with a one-character pattern and a one-character
/// replacement: each number sign becomes a dash, every other character is
/// kept.
#[verifier::external_body]
fn replace_hash_with_dash(s: &str) -> (r: String)
    ensures
        r@ == Seq::new(s@.len(), |i: int| if s@[i] == '#' { '-' } else { s@[i] }),
{
    s.replace('#', "-")
}

/// How a connect code appears in a profile URL: lower-cased, with the
/// number sign turned into a dash.
pub open spec fn spec_code_as_url(s: Seq<char>) -> Seq<char> {
    Seq::new(s.len(), |i: int| if spec_lower_char(s[i]) == '#' { '-' } else { spec_lower_char(s[i]) })
}

/// Whether a byte is an ASCII letter or digit.
pub open spec fn spec_is_alnum(b: u8) -> bool {
    (0x30 <= b && b <= 0x39) || (0x41 <= b && b <= 0x5a) || (0x61 <= b && b <= 0x7a)
}

/// Whether a byte is an ASCII digit.
pub open spec fn spec_is_digit(b: u8) -> bool {
    0x30 <= b && b <= 0x39
}

/// The position of the first number sign in `s` at or after `from`, or the
/// length of `s` when there is none.
pub open spec fn spec_first_hash(s: Seq<u8>, from: int) -> int
    recommends
        0 <= from <= s.len(),
    decreases s.len() - from,
        when 0 <= from <= s.len()
{
    if from >= s.len() {
        s.len() as int
    } else if s[from] == 0x23 {
        from
    } else {
        spec_first_hash(s, from + 1)
    }
}

/// The shape of a valid connect code: one or more letters or digits, a
/// number sign, then one to six digits. Since neither letters, digits nor
/// the discriminator may hold a number sign, the separator is the first
/// number sign of the string.
pub open spec fn spec_valid_connect_code(s: Seq<u8>) -> bool {
    let i = spec_first_hash(s, 0);
    &&& 0 < i < s.len()
    &&& (forall|j: int| 0 <= j < i ==> spec_is_alnum(#[trigger] s[j]))
    &&& (forall|j: int| i < j < s.len() ==> spec_is_digit(#[trigger] s[j]))
    &&& 1 <= s.len() - i - 1 <= 6
}

impl ConnectCode {
    pub fn new(code: String) -> (r: Self)
        ensures
            r.0@ == code@,
    {
        ConnectCode(code)
    }

    /// Whether the code has the valid shape: a non-empty alphanumeric tag,
    /// a number sign, and one to six digits.
    pub fn is_valid(&self) -> (r: bool)
        ensures
            r == spec_valid_connect_code(vstd::utf8::encode_utf8(self.0@)),
    {
        let bytes = self.0.as_str().as_bytes();
        let ghost s = vstd::utf8::encode_utf8(self.0@);
        let n = bytes.len();
        // Find the first number sign.
        let mut i: usize = 0;
        while i < n
            invariant
                0 <= i <= n,
                n == s.len(),
                bytes@ == s,
                spec_first_hash(s, 0) == spec_first_hash(s, i as int),
            ensures
                0 <= i <= n,
                n == s.len(),
                bytes@ == s,
                spec_first_hash(s, 0) == i,
            decreases n - i,
        {
            if bytes[i] == 0x23 {
                assert(spec_first_hash(s, i as int) == i);
                break;
            }
            assert(spec_first_hash(s, i as int) == spec_first_hash(s, i + 1));
            i = i + 1;
        }
        if i == n {
            // No number sign anywhere.
            return false;
        }
        let hash_pos = i;
        // The tag must be non-empty and the discriminator one to six digits.
        if hash_pos == 0 || n - hash_pos - 1 < 1 || n - hash_pos - 1 > 6 {
            return false;
        }
        // The tag must be alphanumeric throughout.
        let mut j: usize = 0;
        while j < hash_pos
            invariant
                0 <= j <= hash_pos < n,
                n == s.len(),
                bytes@ == s,
                s == vstd::utf8::encode_utf8(self.0@),
                spec_first_hash(s, 0) == hash_pos,
                0 < hash_pos,
                1 <= n - hash_pos - 1 <= 6,
                forall|k: int| 0 <= k < j ==> spec_is_alnum(#[trigger] s[k]),
            decreases hash_pos - j,
        {
            let b = bytes[j];
            if !((0x30 <= b && b <= 0x39) || (0x41 <= b && b <= 0x5a) || (0x61 <= b && b <= 0x7a)) {
                assert(!spec_is_alnum(s[j as int]));
                return false;
            }
            j = j + 1;
        }
        // The discriminator must be digits throughout.
        let mut k: usize = hash_pos + 1;
        while k < n
            invariant
                hash_pos < k <= n,
                n == s.len(),
                bytes@ == s,
                s == vstd::utf8::encode_utf8(self.0@),
                spec_first_hash(s, 0) == hash_pos,
                0 < hash_pos,
                1 <= n - hash_pos - 1 <= 6,
                forall|m: int| 0 <= m < hash_pos ==> spec_is_alnum(#[trigger] s[m]),
                forall|m: int| hash_pos < m < k ==> spec_is_digit(#[trigger] s[m]),
            decreases n - k,
        {
            let b = bytes[k];
            if !(0x30 <= b && b <= 0x39) {
                assert(!spec_is_digit(s[k as int]));
                return false;
            }
            k = k + 1;
        }
        true
    }

    /// The code as it appears in a profile URL: lower case, dash instead of
    /// the number sign. The mapping is pinned for ASCII codes, the only kind
    /// the valid shape admits.
    pub fn as_url(&self) -> (r: String)
        ensures
            vstd::utf8::is_ascii_chars(self.0@) ==> r@ == spec_code_as_url(self.0@),
    {
        let lowered = ascii_to_lowercase(self.0.as_str());
        let replaced = replace_hash_with_dash(lowered.as_str());
        proof {
            if vstd::utf8::is_ascii_chars(self.0@) {
                assert(replaced@ =~= spec_code_as_url(self.0@));
            }
        }
        replaced
    }
}

} // verus!
