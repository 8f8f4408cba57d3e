//! Server configuration.

use crate::energy::Energy;
use vstd::prelude::*;

verus! {

/// The command line options of the server, as given.
#[derive(Debug, Clone)]
pub struct Config {
    /// Address to listen on
    pub listen: String,
    /// Delay in milliseconds between end-of-speech detection and synthesis start
    pub response_delay: u64,
    /// Trigger a tool call every N turns (0 = never)
    pub tool_call_interval: u32,
    /// Energy threshold for VAD speech detection (RMS value)
    pub vad_energy_threshold: Energy,
    /// Number of silence frames before end-of-turn detection
    pub vad_silence_frames: u32,
    /// Directory for audio log files (`None` disables audio logging)
    pub audio_output_dir: Option<String>,
}

/// Configuration for the mock server.
#[derive(Debug, Clone)]
pub struct ServerConfig {
    /// Socket address to bind the WebSocket server.
    pub listen: String,
    /// Delay in milliseconds between end-of-speech detection and response generation.
    pub response_delay: u64,
    /// Emit a tool call every N turns. `None` disables tool calls.
    pub tool_call_interval: Option<u32>,
    /// RMS energy threshold for voice activity detection. Audio frames with energy above it are
    /// considered speech.
    pub vad_energy_threshold: Energy,
    /// Number of consecutive silence frames required to trigger end-of-turn.
    pub vad_silence_frames: u32,
    /// Directory where audio log files are written. `None` disables audio logging.
    pub audio_output_dir: Option<String>,
}

/// An interval of turns, where zero stands for none.
pub open spec fn interval_option(interval: u32) -> Option<u32> {
    if interval == 0 {
        None
    } else {
        Some(interval)
    }
}

impl Config {
    /// The interval between tool calls, or `None` if there are none.
    pub fn tool_call_interval_option(&self) -> (interval: Option<u32>)
        ensures
            interval == interval_option(self.tool_call_interval),
    {
        if self.tool_call_interval == 0 {
            None
        } else {
            Some(self.tool_call_interval)
        }
    }
}

impl ServerConfig {
    /// The interval between tool calls, or `None` if there are none. An interval of zero turns
    /// means that there are none.
    pub open spec fn tool_calls(self) -> Option<u32> {
        match self.tool_call_interval {
            Some(interval) => interval_option(interval),
            None => None,
        }
    }

    /// The interval between tool calls, or `None` if there are none.
    pub fn tool_call_interval_option(&self) -> (interval: Option<u32>)
        ensures
            interval == self.tool_calls(),
    {
        match self.tool_call_interval {
            Some(interval) if interval > 0 => Some(interval),
            _ => None,
        }
    }
}

impl Default for ServerConfig {
    fn default() -> (config: ServerConfig)
        ensures
            config.listen@ == "127.0.0.1:8080"@,
            config.response_delay == 200,
            config.tool_call_interval is None,
            config.vad_energy_threshold.spec_bits() == 0x3c23_d70a,
            config.vad_silence_frames == 30,
            config.audio_output_dir is None,
    {
        ServerConfig {
            listen: "127.0.0.1:8080".to_owned(),
            response_delay: 200,
            tool_call_interval: None,
            // 0.01
            vad_energy_threshold: Energy::from_bits(0x3c23_d70a),
            vad_silence_frames: 30,
            audio_output_dir: None,
        }
    }
}

impl vstd::std_specs::convert::FromSpecImpl<Config> for ServerConfig {
    open spec fn obeys_from_spec() -> bool {
        true
    }

    open spec fn from_spec(options: Config) -> ServerConfig {
        ServerConfig {
            listen: options.listen,
            response_delay: options.response_delay,
            tool_call_interval: interval_option(options.tool_call_interval),
            vad_energy_threshold: options.vad_energy_threshold,
            vad_silence_frames: options.vad_silence_frames,
            audio_output_dir: options.audio_output_dir,
        }
    }
}

impl From<Config> for ServerConfig {
    fn from(options: Config) -> (config: ServerConfig) {
        let tool_call_interval = options.tool_call_interval_option();
        ServerConfig {
            listen: options.listen,
            response_delay: options.response_delay,
            tool_call_interval,
            vad_energy_threshold: options.vad_energy_threshold,
            vad_silence_frames: options.vad_silence_frames,
            audio_output_dir: options.audio_output_dir,
        }
    }
}

/// An interval of zero turns stands for no tool calls, and any other for itself, in the options as
/// in the configuration; and where the configuration has none, there are none.
pub proof fn law_zero_means_no_tool_calls(config: ServerConfig, interval: u32)
    ensures
        interval_option(interval) is Some <==> interval > 0,
        interval > 0 ==> interval_option(interval) == Some(interval),
        config.tool_call_interval is None ==> config.tool_calls() is None,
        config.tool_call_interval == Some(interval) ==> (config.tool_calls() is Some <==> interval
            > 0),
        config.tool_call_interval == Some(interval) && interval > 0 ==> config.tool_calls() == Some(
            interval,
        ),
{
}

/// Every option goes into the configuration as it was given, but for an interval of zero turns.
pub proof fn law_options_are_kept(options: Config)
    ensures
        <ServerConfig as vstd::std_specs::convert::FromSpec<Config>>::obeys_from_spec(),
        ({
            let config = <ServerConfig as vstd::std_specs::convert::FromSpec<Config>>::from_spec(
                options,
            );
            &&& config.listen == options.listen
            &&& config.response_delay == options.response_delay
            &&& config.vad_energy_threshold == options.vad_energy_threshold
            &&& config.vad_silence_frames == options.vad_silence_frames
            &&& config.audio_output_dir == options.audio_output_dir
            &&& config.tool_call_interval == if options.tool_call_interval > 0 {
                Some(options.tool_call_interval)
            } else {
                None
            }
        }),
{
}

} // verus!
