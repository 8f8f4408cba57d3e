use gemini_live_mock_server::audio::{AudioLogger, Track};
use gemini_live_mock_server::config::{Config, ServerConfig};
use gemini_live_mock_server::energy::Energy;

fn options(interval: u32) -> Config {
    Config {
        listen: "0.0.0.0:9000".to_string(),
        response_delay: 100,
        tool_call_interval: interval,
        vad_energy_threshold: Energy::from_bits(0.25f32.to_bits()),
        vad_silence_frames: 7,
        audio_output_dir: Some("./audio_logs".to_string()),
    }
}

#[test]
fn defaults_are_as_documented() {
    let config = ServerConfig::default();
    assert_eq!(config.listen, "127.0.0.1:8080");
    assert_eq!(config.response_delay, 200);
    assert_eq!(config.tool_call_interval, None);
    assert_eq!(f32::from_bits(config.vad_energy_threshold.to_bits()), 0.01);
    assert_eq!(config.vad_silence_frames, 30);
    assert_eq!(config.audio_output_dir, None);
}

#[test]
fn an_interval_of_zero_means_no_tool_calls() {
    assert_eq!(options(0).tool_call_interval_option(), None);
    assert_eq!(options(3).tool_call_interval_option(), Some(3));
    for (given, expected) in [(None, None), (Some(0), None), (Some(2), Some(2))] {
        let config = ServerConfig { tool_call_interval: given, ..ServerConfig::default() };
        assert_eq!(config.tool_call_interval_option(), expected);
    }
}

#[test]
fn options_become_a_configuration() {
    let config = ServerConfig::from(options(3));
    assert_eq!(config.listen, "0.0.0.0:9000");
    assert_eq!(config.response_delay, 100);
    assert_eq!(config.tool_call_interval, Some(3));
    assert_eq!(f32::from_bits(config.vad_energy_threshold.to_bits()), 0.25);
    assert_eq!(config.vad_silence_frames, 7);
    assert_eq!(config.audio_output_dir, Some("./audio_logs".to_string()));
    assert_eq!(ServerConfig::from(options(0)).tool_call_interval, None);
    let without_logs = Config { audio_output_dir: None, ..options(0) };
    assert_eq!(ServerConfig::from(without_logs).audio_output_dir, None);
}

#[test]
fn logs_are_created_once_and_closed_in_order() {
    let mut logger = AudioLogger::new("abc".to_string(), "logs".to_string());
    let input = logger.write_input().unwrap();
    assert_eq!(input.directory, "logs");
    assert_eq!(input.name, "abc_input.wav");
    assert_eq!(input.format.channels, 1);
    assert_eq!(input.format.sample_rate, 16000);
    assert_eq!(input.format.bits_per_sample, 16);
    // Not created yet: asked for again
    assert!(logger.write_input().is_some());
    let output = logger.write_output().unwrap();
    assert_eq!(output.name, "abc_output.wav");
    assert_eq!(output.format.sample_rate, 24000);

    logger.created(Track::Output);
    assert!(logger.write_output().is_none());
    assert!(logger.write_input().is_some());
    logger.created(Track::Input);
    assert!(logger.write_input().is_none());
    assert_eq!(logger.finalize(), vec![Track::Input, Track::Output]);
}

#[test]
fn logs_that_were_never_created_are_not_closed() {
    let logger = AudioLogger::new("abc".to_string(), "logs".to_string());
    assert_eq!(logger.finalize(), vec![]);
    let mut logger = AudioLogger::new("abc".to_string(), "logs".to_string());
    logger.created(Track::Output);
    assert_eq!(logger.finalize(), vec![Track::Output]);
}
