use gemini_live_mock_server::mock_response::{
    audio_samples, generate_audio_response, generate_interrupted, generate_text_response,
    generate_tool_call, generate_turn_complete, generate_usage_metadata, resample_16k_to_24k,
    resample_chunks, samples_fit_message, Resampled, CHUNK_SIZE,
};
use gemini_live_mock_server::protocol::{Content, Part, ServerContent, ServerContentMessage};

#[test]
fn test_generate_text_response() {
    let response = generate_text_response(1);
    let content = response.server_content.model_turn.unwrap();
    assert_eq!(content.role, Some("model".to_string()));
    assert_eq!(content.parts[0].text, Some("Mock response #1".to_string()));
}

#[test]
fn test_generate_tool_call() {
    let tool_call = generate_tool_call("test_id");
    assert_eq!(tool_call.tool_call.function_calls.len(), 1);
    assert_eq!(tool_call.tool_call.function_calls[0].id, "test_id");
    assert_eq!(tool_call.tool_call.function_calls[0].name, "get_data");
}

#[test]
fn test_resample_empty() {
    let result = resample_16k_to_24k(&[], &Ok(Vec::new()));
    assert!(result.is_ok());
    assert!(result.unwrap().is_empty());
}

#[test]
fn resampling_nothing_needs_no_resampler() {
    let failed: Resampled = Err("no".to_string());
    assert_eq!(resample_16k_to_24k(&[], &failed), Ok(Vec::new()));
    let some: Resampled = Ok(vec![Some(vec![1, 2])]);
    assert_eq!(resample_16k_to_24k(&[], &some), Ok(Vec::new()));
}

#[test]
fn text_response_holds_the_turn_number() {
    for n in [0u32, 7, 10, 99, 100, 12345, u32::MAX] {
        let response = generate_text_response(n);
        assert_eq!(response.server_content.turn_complete, None);
        assert_eq!(response.server_content.interrupted, None);
        let content = response.server_content.model_turn.unwrap();
        assert_eq!(content.parts.len(), 1);
        assert_eq!(content.parts[0].text, Some(format!("Mock response #{n}")));
        assert!(content.parts[0].inline_data.is_none());
    }
}

#[test]
fn turn_complete_and_interrupted_say_nothing_else() {
    let done = generate_turn_complete().server_content;
    assert!(done.model_turn.is_none());
    assert_eq!(done.turn_complete, Some(true));
    assert_eq!(done.interrupted, None);
    let cut = generate_interrupted().server_content;
    assert!(cut.model_turn.is_none());
    assert_eq!(cut.turn_complete, None);
    assert_eq!(cut.interrupted, Some(true));
}

#[test]
fn usage_adds_up() {
    let usage = generate_usage_metadata().usage_metadata;
    assert_eq!(usage.prompt_token_count, 10);
    assert_eq!(usage.response_token_count, 5);
    assert_eq!(usage.total_token_count, 15);
}

#[test]
fn tool_call_has_a_query() {
    let call = generate_tool_call("x");
    assert_eq!(
        call.tool_call.function_calls[0].args,
        vec![("query".to_string(), "mock_query".to_string())]
    );
}

#[test]
fn chunks_are_full_and_in_order() {
    assert!(resample_chunks(&[]).is_empty());

    let short = resample_chunks(&[5, -6]);
    assert_eq!(short.len(), 1);
    assert_eq!(short[0].len(), CHUNK_SIZE);
    assert_eq!(short[0][..3], [5, -6, 0]);
    assert!(short[0][2..].iter().all(|&s| s == 0));

    let input: Vec<i16> = (0..2500).map(|i| i as i16).collect();
    let chunks = resample_chunks(&input);
    assert_eq!(chunks.len(), 3);
    assert!(chunks.iter().all(|c| c.len() == 1024));
    let joined: Vec<i16> = chunks.concat();
    assert_eq!(joined[..2500], input[..]);
    assert!(joined[2500..].iter().all(|&s| s == 0));

    assert_eq!(resample_chunks(&vec![1; 2048]).len(), 2);
}

#[test]
fn failed_chunks_are_left_out() {
    let resampled: Resampled = Ok(vec![Some(vec![1, 2]), None, Some(vec![]), Some(vec![3])]);
    assert_eq!(resample_16k_to_24k(&[9], &resampled), Ok(vec![1, 2, 3]));
}

#[test]
fn a_resampler_that_cannot_be_set_up_is_an_error() {
    let resampled: Resampled = Err("bad ratio".to_string());
    assert_eq!(
        resample_16k_to_24k(&[9], &resampled),
        Err("Failed to create resampler: bad ratio".to_string())
    );
    assert_eq!(
        generate_audio_response(&[9], &resampled).err(),
        Some("Failed to create resampler: bad ratio".to_string())
    );
}

#[test]
fn audio_response_is_base64_of_little_endian_samples() {
    let resampled: Resampled = Ok(vec![Some(vec![1, -1])]);
    let response = generate_audio_response(&[9], &resampled).unwrap();
    assert_eq!(audio_samples(&response), Some(vec![1, -1]));
    let content = response.server_content.model_turn.unwrap();
    assert_eq!(content.role, Some("model".to_string()));
    assert_eq!(content.parts.len(), 1);
    assert_eq!(content.parts[0].text, None);
    let data = content.parts[0].inline_data.as_ref().unwrap();
    assert_eq!(data.mime_type, "audio/pcm;rate=24000");
    assert_eq!(data.data, "AQD//w==");
}

#[test]
fn audio_response_of_nothing_is_empty() {
    let response = generate_audio_response(&[], &Err("unused".to_string())).unwrap();
    assert_eq!(audio_samples(&response), Some(vec![]));
}

#[test]
fn audio_is_read_back_from_a_response() {
    let samples: Vec<i16> = vec![0, 1, -1, 255, 256, -256, i16::MAX, i16::MIN, 12345];
    let resampled: Resampled = Ok(vec![Some(samples.clone())]);
    let response = generate_audio_response(&[1], &resampled).unwrap();
    assert_eq!(audio_samples(&response), Some(samples));
}

#[test]
fn a_message_without_audio_has_none() {
    assert_eq!(audio_samples(&generate_text_response(1)), None);
    assert_eq!(audio_samples(&generate_turn_complete()), None);
    let empty = ServerContentMessage {
        server_content: ServerContent {
            model_turn: Some(Content { role: None, parts: Vec::<Part>::new() }),
            turn_complete: None,
            interrupted: None,
        },
    };
    assert_eq!(audio_samples(&empty), None);
}

#[test]
fn ordinary_audio_fits_a_message() {
    assert!(samples_fit_message(0));
    assert!(samples_fit_message(24000 * 3600));
    assert!(!samples_fit_message(usize::MAX));
}
