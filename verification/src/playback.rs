//! The replay playback engine: a pure state machine over parsed replay
//! data. The engine asks its configuration source which replay is desired,
//! has its parser load it, prepares the patch list for the match, and hands
//! out one frame package at a time. Reading files is the caller's business:
//! the configuration source and the parser are traits the caller implements.

use vstd::prelude::*;
use vstd::string::StringSliceAdditionalSpecFns;

verus! {

/// Outcome of asking whether a replay is ready to play.
#[derive(Clone, Debug)]
pub enum IsReplayReadyResult {
    /// No replay path is configured, or minimum start data is missing.
    NotReady { reason: String },
    /// A newly requested replay was parsed and the state was reset to it.
    NewGameLoaded,
    /// The currently loaded replay is ready to start.
    Ready,
}

/// What to do with the current frame.
#[derive(Clone, Copy, Debug, PartialEq, Eq, Structural)]
pub enum FrameDecision {
    Play,
    Halt,
    FastForward,
    Terminate,
}

/// Per-player controller inputs for one frame.
#[derive(Clone, Copy, Debug, PartialEq, Eq, Structural)]
pub struct ControllerInput {
    pub a: bool,
    pub b: bool,
    pub x: bool,
    pub y: bool,
    pub l_analog: u8,
    pub r_analog: u8,
    pub stick_x: i8,
    pub stick_y: i8,
}

impl Default for ControllerInput {
    /// Neutral inputs: no buttons held, sticks centred.
    fn default() -> (r: Self)
        ensures
            r == (ControllerInput {
                a: false,
                b: false,
                x: false,
                y: false,
                l_analog: 0,
                r_analog: 0,
                stick_x: 0,
                stick_y: 0,
            }),
    {
        ControllerInput {
            a: false,
            b: false,
            x: false,
            y: false,
            l_analog: 0,
            r_analog: 0,
            stick_x: 0,
            stick_y: 0,
        }
    }
}

/// Inputs of all players for one frame.
#[derive(Debug)]
pub struct FrameInputs {
    pub players: Vec<ControllerInput>,
}

impl Clone for FrameInputs {
    fn clone(&self) -> (r: Self)
        ensures
            r.players@ == self.players@,
    {
        FrameInputs { players: self.players.clone() }
    }
}

impl Default for FrameInputs {
    /// No players.
    fn default() -> (r: Self)
        ensures
            r.players@ == Seq::<ControllerInput>::empty(),
    {
        FrameInputs { players: Vec::new() }
    }
}

/// What the parser extracts that is needed to start the match.
#[derive(Debug)]
pub struct StartConditions {
    pub stage_id: u16,
    pub characters: Vec<u16>,
    pub settings_blob: Vec<u8>,
}

impl Clone for StartConditions {
    fn clone(&self) -> (r: Self)
        ensures
            r.stage_id == self.stage_id,
            r.characters@ == self.characters@,
            r.settings_blob@ == self.settings_blob@,
    {
        StartConditions {
            stage_id: self.stage_id,
            characters: self.characters.clone(),
            settings_blob: self.settings_blob.clone(),
        }
    }
}

impl Default for StartConditions {
    /// An empty set of start conditions.
    fn default() -> (r: Self)
        ensures
            r.stage_id == 0,
            r.characters@ == Seq::<u16>::empty(),
            r.settings_blob@ == Seq::<u8>::empty(),
    {
        StartConditions { stage_id: 0, characters: Vec::new(), settings_blob: Vec::new() }
    }
}

/// The full payload needed to play one frame.
#[derive(Debug)]
pub struct FramePackage {
    pub frame_index: usize,
    pub inputs: FrameInputs,
    pub rng_seed: u32,
}

/// What a parser produced for one replay file.
#[derive(Debug)]
pub struct ParsedReplay {
    pub frames: Vec<FrameInputs>,
    pub start_conditions: StartConditions,
    pub initial_rng_seed: u32,
}

/// What can go wrong inside the engine or its collaborators.
#[derive(Clone, Debug)]
pub enum EngineError {
    ConfigIo(String),
    ConfigParse(String),
    ReplayIo(String),
    ReplayParse(String),
    InsufficientData(String),
    GeckoNotPrepared,
    FrameOutOfRange(String),
}

/// The desired replay, as the configuration source reports it.
#[derive(Clone, Debug)]
pub struct EngineConfig {
    pub replay_path: Option<String>,
}

/// A source the engine polls for the currently desired replay; the caller
/// implements it (for instance over a JSON file on disk).
pub trait ReplayConfigSource {
    fn read_current(&self) -> Result<EngineConfig, EngineError>;
}

/// A parser that loads one replay file; the caller implements it.
pub trait ReplayParser {
    fn parse(&self, path: &str) -> Result<ParsedReplay, EngineError>;
}

/// The location of a JSON configuration file that names the desired replay;
/// the reading itself is the caller's.
#[derive(Clone, Debug)]
pub struct JsonFileConfig {
    pub path: String,
}

impl JsonFileConfig {
    pub fn new(path: String) -> (r: Self)
        ensures
            r.path@ == path@,
    {
        JsonFileConfig { path }
    }
}

/// The bytes handed to the game for the given match conditions: a literal
/// tag followed by the stage identifier in little-endian order.
pub open spec fn spec_gecko_bytes(stage_id: u16) -> Seq<u8> {
    ("GECKO\0").spec_bytes() + seq![(stage_id % 256) as u8, (stage_id / 256) as u8]
}

/// Builds the patch code list bytes for a match.
#[derive(Clone, Debug)]
pub struct GeckoManager;

impl Default for GeckoManager {
    fn default() -> (r: Self) {
        GeckoManager
    }
}

impl GeckoManager {
    /// Builds the patch list bytes for the given match conditions and
    /// returns them with their total size.
    pub fn prepare_for_match(&self, conditions: &StartConditions) -> (r: (Vec<u8>, usize))
        ensures
            r.0@ == spec_gecko_bytes(conditions.stage_id),
            r.1 == r.0@.len(),
    {
        let mut bytes: Vec<u8> = Vec::new();
        crate::jsonenc::push_str_bytes(&mut bytes, "GECKO\0");
        bytes.push((conditions.stage_id % 256) as u8);
        bytes.push((conditions.stage_id / 256) as u8);
        assert(bytes@ =~= spec_gecko_bytes(conditions.stage_id));
        let total = bytes.len();
        (bytes, total)
    }
}

/// The mutable playback state: the loaded replay, the playhead, the
/// prepared patch bytes, and the external control flags.
#[derive(Debug)]
pub struct PlaybackState {
    pub current_replay_path: Option<String>,
    pub frames: Vec<FrameInputs>,
    pub next_frame: usize,
    pub start_conditions: Option<StartConditions>,
    pub rng_seed: u32,
    pub gecko_blob: Option<Vec<u8>>,
    pub gecko_size: usize,
    pub paused: bool,
    pub fast_forward: bool,
    pub should_terminate: bool,
}

/// Whether enough is known to start the match.
pub open spec fn spec_has_minimum_start_data(s: PlaybackState) -> bool {
    s.start_conditions is Some && s.frames@.len() > 0
}

impl Default for PlaybackState {
    /// No replay loaded, playhead at zero, all flags off.
    fn default() -> (r: Self)
        ensures
            r.current_replay_path is None,
            r.frames@.len() == 0,
            r.next_frame == 0,
            r.start_conditions is None,
            r.rng_seed == 0,
            r.gecko_blob is None,
            r.gecko_size == 0,
            !r.paused,
            !r.fast_forward,
            !r.should_terminate,
    {
        PlaybackState {
            current_replay_path: None,
            frames: Vec::new(),
            next_frame: 0,
            start_conditions: None,
            rng_seed: 0,
            gecko_blob: None,
            gecko_size: 0,
            paused: false,
            fast_forward: false,
            should_terminate: false,
        }
    }
}

impl PlaybackState {
    /// Points the state at a newly loaded replay and clears everything that
    /// belonged to the previous one.
    pub fn reset_for_new_game(&mut self, new_path: String, _parsed: &ParsedReplay)
        ensures
            final(self).current_replay_path matches Some(p) && p@ == new_path@,
            final(self).frames@.len() == 0,
            final(self).next_frame == 0,
            final(self).start_conditions is None,
            final(self).rng_seed == 0,
            final(self).gecko_blob is None,
            final(self).gecko_size == 0,
            !final(self).paused,
            !final(self).fast_forward,
            !final(self).should_terminate,
    {
        self.current_replay_path = Some(new_path);
        self.frames = Vec::new();
        self.next_frame = 0;
        self.start_conditions = None;
        self.rng_seed = 0;
        self.gecko_blob = None;
        self.gecko_size = 0;
        self.paused = false;
        self.fast_forward = false;
        self.should_terminate = false;
    }

    pub fn store_start_conditions(&mut self, sc: StartConditions)
        ensures
            *final(self) == (PlaybackState { start_conditions: Some(sc), ..*old(self) }),
    {
        self.start_conditions = Some(sc);
    }

    pub fn store_frames(&mut self, frames: Vec<FrameInputs>)
        ensures
            *final(self) == (PlaybackState { frames, ..*old(self) }),
    {
        self.frames = frames;
    }

    pub fn store_initial_rng(&mut self, seed: u32)
        ensures
            *final(self) == (PlaybackState { rng_seed: seed, ..*old(self) }),
    {
        self.rng_seed = seed;
    }

    /// Whether start conditions and at least one frame are loaded.
    pub fn has_minimum_start_data(&self) -> (r: bool)
        ensures
            r == spec_has_minimum_start_data(*self),
    {
        self.start_conditions.is_some() && self.frames.len() > 0
    }

    pub fn start_conditions(&self) -> (r: Option<&StartConditions>)
        ensures
            match r {
                Some(sc) => self.start_conditions == Some(*sc),
                None => self.start_conditions is None,
            },
    {
        self.start_conditions.as_ref()
    }

    pub fn store_gecko_codes(&mut self, bytes: Vec<u8>, total_size: usize)
        ensures
            *final(self) == (PlaybackState {
                gecko_blob: Some(bytes),
                gecko_size: total_size,
                ..*old(self)
            }),
    {
        self.gecko_blob = Some(bytes);
        self.gecko_size = total_size;
    }

    /// The prepared patch bytes and their recorded total size, once
    /// `store_gecko_codes` has run.
    pub fn gecko_blob(&self) -> (r: Option<(&[u8], usize)>)
        ensures
            match r {
                Some(b) => self.gecko_blob matches Some(v) && b.0@ == v@ && b.1 == self.gecko_size,
                None => self.gecko_blob is None,
            },
    {
        match &self.gecko_blob {
            Some(v) => Some((v.as_slice(), self.gecko_size)),
            None => None,
        }
    }

    /// The priority order of the control flags: terminate over halt over
    /// fast-forward over ordinary play.
    pub fn compute_frame_decision(&self) -> (r: FrameDecision)
        ensures
            r == (if self.should_terminate {
                FrameDecision::Terminate
            } else if self.paused {
                FrameDecision::Halt
            } else if self.fast_forward {
                FrameDecision::FastForward
            } else {
                FrameDecision::Play
            }),
    {
        if self.should_terminate {
            return FrameDecision::Terminate;
        }
        if self.paused {
            return FrameDecision::Halt;
        }
        if self.fast_forward {
            return FrameDecision::FastForward;
        }
        FrameDecision::Play
    }

    /// Hands out the package for the current frame and advances the
    /// playhead, or `Ok(None)` once the replay is exhausted; the caller
    /// decides how to end the game.
    pub fn next_frame_package(&mut self) -> (r: Result<Option<FramePackage>, EngineError>)
        ensures
            r is Ok,
            old(self).next_frame >= old(self).frames@.len() ==> *final(self) == *old(self) && (
            r matches Ok(p) && p is None),
            old(self).next_frame < old(self).frames@.len() ==> {
                &&& final(self).next_frame == old(self).next_frame + 1
                &&& *final(self) == (PlaybackState {
                    next_frame: final(self).next_frame,
                    ..*old(self)
                })
                &&& (r matches Ok(p) && p matches Some(pkg) && pkg.frame_index == old(
                    self,
                ).next_frame && pkg.inputs.players@ == old(self).frames@[old(
                    self,
                ).next_frame as int].players@ && pkg.rng_seed == old(self).rng_seed)
            },
    {
        if self.next_frame >= self.frames.len() {
            return Ok(None);
        }
        let idx = self.next_frame;
        let inputs = self.frames[idx].clone();
        let pkg = FramePackage { frame_index: idx, inputs, rng_seed: self.rng_seed };
        self.next_frame = idx + 1;
        Ok(Some(pkg))
    }
}

/// The engine facade: wires the configuration source, the parser, the patch
/// builder and the playback state together.
#[derive(Debug)]
pub struct PlaybackEngine<C: ReplayConfigSource, P: ReplayParser> {
    pub cfg_source: C,
    pub parser: P,
    pub gecko: GeckoManager,
    pub state: PlaybackState,
}

/// Collects the collaborators before the engine is built.
#[derive(Debug)]
pub struct PlaybackEngineBuilder<C: ReplayConfigSource, P: ReplayParser> {
    pub cfg_source: Option<C>,
    pub parser: Option<P>,
}

impl<C: ReplayConfigSource, P: ReplayParser> PlaybackEngine<C, P> {
    /// A builder with nothing chosen yet.
    pub fn builder() -> (r: PlaybackEngineBuilder<C, P>)
        ensures
            r.cfg_source is None,
            r.parser is None,
    {
        PlaybackEngineBuilder { cfg_source: None, parser: None }
    }

    /// Reads the currently desired replay from the configuration source.
    /// When it differs from the loaded one, the file is parsed and the
    /// state reset to it; otherwise the loaded replay is ready exactly when
    /// minimum start data is present. The state changes only when a new
    /// replay is loaded.
    pub fn is_replay_ready(&mut self) -> (r: Result<IsReplayReadyResult, EngineError>)
        ensures
            !(r matches Ok(IsReplayReadyResult::NewGameLoaded)) ==> final(self).state == old(self).state,
            r matches Ok(IsReplayReadyResult::Ready) ==> spec_has_minimum_start_data(final(self).state),
            r matches Ok(IsReplayReadyResult::NewGameLoaded) ==> (final(self).state.current_replay_path is Some),
    {
        let cfg = match self.cfg_source.read_current() {
            Ok(c) => c,
            Err(e) => {
                return Err(e);
            },
        };
        let desired = match cfg.replay_path {
            Some(p) => p,
            None => {
                return Ok(
                    IsReplayReadyResult::NotReady {
                        reason: ("no replay path specified").to_owned(),
                    },
                );
            },
        };
        let differs = match &self.state.current_replay_path {
            Some(cur) => !crate::strutil::str_eq(cur.as_str(), desired.as_str()),
            None => true,
        };
        if differs {
            let parsed = match self.parser.parse(desired.as_str()) {
                Ok(p) => p,
                Err(e) => {
                    return Err(e);
                },
            };
            self.load_new_game(desired, parsed);
            return Ok(IsReplayReadyResult::NewGameLoaded);
        }
        if self.state.has_minimum_start_data() {
            Ok(IsReplayReadyResult::Ready)
        } else {
            Ok(IsReplayReadyResult::NotReady { reason: ("waiting on minimum start data").to_owned() })
        }
    }

    /// Resets the state to a newly parsed replay and stores everything the
    /// parser extracted.
    fn load_new_game(&mut self, path: String, parsed: ParsedReplay)
        ensures
            final(self).state.current_replay_path matches Some(p) && p@ == path@,
            final(self).state.frames@ == parsed.frames@,
            final(self).state.start_conditions == Some(parsed.start_conditions),
            final(self).state.rng_seed == parsed.initial_rng_seed,
            final(self).state.next_frame == 0,
            final(self).state.gecko_blob is None,
    {
        self.state.reset_for_new_game(path, &parsed);
        self.state.store_start_conditions(parsed.start_conditions);
        self.state.store_frames(parsed.frames);
        self.state.store_initial_rng(parsed.initial_rng_seed);
    }

    /// Checks that the replay has enough data to start and builds the patch
    /// list for the match: succeeds exactly when minimum start data is
    /// present, and then the prepared bytes are those of the loaded stage.
    pub fn prepare_replay(&mut self) -> (r: Result<(), EngineError>)
        ensures
            r is Ok <==> spec_has_minimum_start_data(old(self).state),
            r matches Err(e) ==> *final(self) == *old(self) && (e is InsufficientData),
            r is Ok ==> (final(self).state.gecko_blob matches Some(b) && b@ == spec_gecko_bytes(
                old(self).state.start_conditions->Some_0.stage_id,
            ) && final(self).state.gecko_size == b@.len()),
    {
        if !self.state.has_minimum_start_data() {
            return Err(
                EngineError::InsufficientData(("not enough data to start replay").to_owned()),
            );
        }
        let conditions = match self.state.start_conditions() {
            Some(c) => c,
            None => {
                return Err(
                    EngineError::InsufficientData(("missing start conditions").to_owned()),
                );
            },
        };
        let prepared = self.gecko.prepare_for_match(conditions);
        self.state.store_gecko_codes(prepared.0, prepared.1);
        Ok(())
    }

    /// The patch list prepared by `prepare_replay`: fails exactly while none
    /// is prepared.
    pub fn get_replay_gecko_codelist(&self) -> (r: Result<(&[u8], usize), EngineError>)
        ensures
            r is Ok <==> self.state.gecko_blob is Some,
            r matches Ok(b) ==> self.state.gecko_blob matches Some(v) && b.0@ == v@ && b.1
                == self.state.gecko_size,
            r matches Err(e) ==> e is GeckoNotPrepared,
    {
        match self.state.gecko_blob() {
            Some(b) => Ok(b),
            None => Err(EngineError::GeckoNotPrepared),
        }
    }

    /// Decides what to do with the current frame and, when playing, hands
    /// out the inputs and RNG seed for it.
    pub fn prepare_replay_frame(&mut self) -> (r: Result<
        (FrameDecision, Option<FramePackage>),
        EngineError,
    >)
        ensures
            r is Ok,
            r matches Ok(p) ==> p.0 == (if old(self).state.should_terminate {
                FrameDecision::Terminate
            } else if old(self).state.paused {
                FrameDecision::Halt
            } else if old(self).state.fast_forward {
                FrameDecision::FastForward
            } else {
                FrameDecision::Play
            }),
            r matches Ok(p) ==> ((p.0 is Terminate || p.0 is Halt) ==> *final(self) == *old(self)
                && (p.1 is None)),
            r matches Ok(p) ==> ((p.0 is Play || p.0 is FastForward) ==> (
            if old(self).state.next_frame >= old(self).state.frames@.len() {
                *final(self) == *old(self) && p.1 is None
            } else {
                &&& final(self).state == (PlaybackState {
                    next_frame: (old(self).state.next_frame + 1) as usize,
                    ..old(self).state
                })
                &&& (p.1 matches Some(pkg) && pkg.frame_index == old(self).state.next_frame
                    && pkg.inputs.players@ == old(self).state.frames@[old(
                    self,
                ).state.next_frame as int].players@ && pkg.rng_seed == old(self).state.rng_seed)
            })),
    {
        let decision = self.state.compute_frame_decision();
        match decision {
            FrameDecision::Terminate => Ok((FrameDecision::Terminate, None)),
            FrameDecision::Halt => Ok((FrameDecision::Halt, None)),
            _ => {
                let maybe_pkg = match self.state.next_frame_package() {
                    Ok(p) => p,
                    Err(e) => {
                        return Err(e);
                    },
                };
                Ok((decision, maybe_pkg))
            },
        }
    }
}

impl<C: ReplayConfigSource, P: ReplayParser> PlaybackEngineBuilder<C, P> {
    /// Chooses the configuration source.
    pub fn with_config(self, src: C) -> (r: Self)
        ensures
            r.cfg_source is Some,
            r.parser == self.parser,
    {
        PlaybackEngineBuilder { cfg_source: Some(src), parser: self.parser }
    }

    /// Chooses the parser.
    pub fn with_parser(self, parser: P) -> (r: Self)
        ensures
            r.parser is Some,
            r.cfg_source == self.cfg_source,
    {
        PlaybackEngineBuilder { cfg_source: self.cfg_source, parser: Some(parser) }
    }

    /// Builds the engine once both collaborators are chosen: the engine
    /// polls and parses through exactly those collaborators, over a fresh
    /// playback state.
    pub fn build(self) -> (r: PlaybackEngine<C, P>)
        requires
            self.cfg_source is Some,
            self.parser is Some,
        ensures
            r.cfg_source == self.cfg_source->Some_0,
            r.parser == self.parser->Some_0,
            r.state.current_replay_path is None,
            r.state.frames@.len() == 0,
            r.state.next_frame == 0,
            r.state.start_conditions is None,
            r.state.gecko_blob is None,
            !r.state.paused,
            !r.state.fast_forward,
            !r.state.should_terminate,
    {
        let cfg_source = match self.cfg_source {
            Some(c) => c,
            None => unreached(),
        };
        let parser = match self.parser {
            Some(p) => p,
            None => unreached(),
        };
        PlaybackEngine { cfg_source, parser, gecko: GeckoManager, state: PlaybackState::default() }
    }
}

} // verus!
