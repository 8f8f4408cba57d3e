//! The messages that a mock response is made of.

use crate::codec;
use crate::pcm;
use crate::protocol::{
    Content, ContentModel, FunctionCall, FunctionCallModel, InlineData, InlineDataModel,
    MessageModel, Part, PartModel, ServerContent, ServerContentMessage, ServerContentModel,
    ToolCall, ToolCallMessage, UsageMetadata, UsageMetadataMessage,
};
use crate::text;
use vstd::prelude::*;

verus! {

/// How many samples the resampler takes at a time.
pub const CHUNK_SIZE: usize = 1024;

/// What the resampler gave: an error message if it could not be set up, and else, for each chunk
/// in turn, the samples at the new rate, or `None` where it failed on the chunk.
pub type Resampled = Result<Vec<Option<Vec<i16>>>, String>;

// ---------------------------------------------------------------------------------------------
// Messages
// ---------------------------------------------------------------------------------------------

/// A turn of the model that consists of one part.
pub open spec fn model_turn_message(part: PartModel) -> MessageModel {
    MessageModel::ServerContent(
        ServerContentModel {
            model_turn: Some(ContentModel { role: Some("model"@), parts: seq![part] }),
            turn_complete: None,
            interrupted: None,
        },
    )
}

/// The text response in a turn.
pub open spec fn text_message(turn_number: nat) -> MessageModel {
    model_turn_message(
        PartModel {
            text: Some("Mock response #"@ + text::decimal(turn_number)),
            inline_data: None,
        },
    )
}

/// The audio response with the given samples.
pub open spec fn audio_message(samples: Seq<i16>) -> MessageModel {
    model_turn_message(
        PartModel {
            text: None,
            inline_data: Some(
                InlineDataModel {
                    mime_type: "audio/pcm;rate=24000"@,
                    data: codec::base64_text(pcm::bytes(samples)),
                },
            ),
        },
    )
}

/// The signal that the turn is complete.
pub open spec fn turn_complete_message() -> MessageModel {
    MessageModel::ServerContent(
        ServerContentModel { model_turn: None, turn_complete: Some(true), interrupted: None },
    )
}

/// The signal that the response was interrupted.
pub open spec fn interrupted_message() -> MessageModel {
    MessageModel::ServerContent(
        ServerContentModel { model_turn: None, turn_complete: None, interrupted: Some(true) },
    )
}

/// The token usage that every turn reports.
pub open spec fn usage_message() -> MessageModel {
    MessageModel::UsageMetadata(
        UsageMetadata { prompt_token_count: 10, response_token_count: 5, total_token_count: 15 },
    )
}

/// The tool call with the given identifier.
pub open spec fn tool_call_message(call_id: Seq<char>) -> MessageModel {
    MessageModel::ToolCall {
        function_calls: seq![
            FunctionCallModel {
                id: call_id,
                name: "get_data"@,
                args: seq![("query"@, "mock_query"@)],
            },
        ],
    }
}

/// A turn of the model that consists of one part.
fn model_turn(part: Part) -> (message: ServerContentMessage)
    ensures
        message@ == model_turn_message(part@),
{
    let content = Content { role: Some("model".to_owned()), parts: vec![part] };
    assert(content@.parts =~= seq![part@]);
    ServerContentMessage {
        server_content: ServerContent {
            model_turn: Some(content),
            turn_complete: None,
            interrupted: None,
        },
    }
}

/// Generate a mock text response.
pub fn generate_text_response(turn_number: u32) -> (message: ServerContentMessage)
    ensures
        message@ == text_message(turn_number as nat),
{
    let mut text: String = "Mock response #".to_owned();
    text::append_decimal(&mut text, turn_number);
    model_turn(Part { text: Some(text), inline_data: None })
}

/// Generate a turn complete message.
pub fn generate_turn_complete() -> (message: ServerContentMessage)
    ensures
        message@ == turn_complete_message(),
{
    ServerContentMessage {
        server_content: ServerContent {
            model_turn: None,
            turn_complete: Some(true),
            interrupted: None,
        },
    }
}

/// Generate the message that tells the client that it has interrupted the response.
pub fn generate_interrupted() -> (message: ServerContentMessage)
    ensures
        message@ == interrupted_message(),
{
    ServerContentMessage {
        server_content: ServerContent {
            model_turn: None,
            turn_complete: None,
            interrupted: Some(true),
        },
    }
}

/// Generate mock usage metadata.
pub fn generate_usage_metadata() -> (message: UsageMetadataMessage)
    ensures
        message@ == usage_message(),
{
    UsageMetadataMessage {
        usage_metadata: UsageMetadata {
            prompt_token_count: 10,
            response_token_count: 5,
            total_token_count: 15,
        },
    }
}

/// Generate a mock tool call.
pub fn generate_tool_call(call_id: &str) -> (message: ToolCallMessage)
    ensures
        message@ == tool_call_message(call_id@),
{
    let call = FunctionCall {
        id: call_id.to_owned(),
        name: "get_data".to_owned(),
        args: vec![("query".to_owned(), "mock_query".to_owned())],
    };
    assert(call@.args =~= seq![("query"@, "mock_query"@)]);
    let message = ToolCallMessage { tool_call: ToolCall { function_calls: vec![call] } };
    assert(message@->function_calls =~= tool_call_message(call_id@)->function_calls);
    message
}

// ---------------------------------------------------------------------------------------------
// Audio
// ---------------------------------------------------------------------------------------------

/// How many chunks it takes to hold a number of samples.
pub open spec fn chunk_count(n: nat) -> nat {
    (n + CHUNK_SIZE - 1) as nat / CHUNK_SIZE as nat
}

/// A chunk of the input.  The last one is filled up with silence.
pub open spec fn chunk(input: Seq<i16>, k: int) -> Seq<i16> {
    Seq::new(
        CHUNK_SIZE as nat,
        |i: int|
            if k * CHUNK_SIZE + i < input.len() {
                input[k * CHUNK_SIZE + i]
            } else {
                0i16
            },
    )
}

/// The input, cut into chunks.
pub open spec fn chunks(input: Seq<i16>) -> Seq<Seq<i16>> {
    Seq::new(chunk_count(input.len()), |k: int| chunk(input, k))
}

/// The chunks that a vector of them holds.
pub open spec fn chunks_view(v: Seq<Vec<i16>>) -> Seq<Seq<i16>> {
    Seq::new(v.len(), |i: int| v[i]@)
}

/// The samples of one chunk at the new rate: none where the resampler failed on it.
pub open spec fn chunk_output(output: Option<Vec<i16>>) -> Seq<i16> {
    match output {
        Some(samples) => samples@,
        None => Seq::empty(),
    }
}

/// The outputs of all chunks, joined.
pub open spec fn joined(outputs: Seq<Option<Vec<i16>>>) -> Seq<i16>
    decreases outputs.len(),
{
    if outputs.len() == 0 {
        Seq::empty()
    } else {
        joined(outputs.drop_last()) + chunk_output(outputs.last())
    }
}

/// The input at the new rate, or the message of an error: of no samples, there are none; else
/// it is as the resampler says.
pub open spec fn resampled_audio(input: Seq<i16>, resampled: Resampled) -> Result<
    Seq<i16>,
    Seq<char>,
> {
    if input.len() == 0 {
        Ok(Seq::empty())
    } else {
        match resampled {
            Ok(outputs) => Ok(joined(outputs@)),
            Err(e) => Err("Failed to create resampler: "@ + e@),
        }
    }
}

/// The text of the data that a message carries in its first part, if there is any.
pub open spec fn audio_text(message: MessageModel) -> Option<Seq<char>> {
    if let MessageModel::ServerContent(content) = message {
        if content.model_turn is Some && content.model_turn->0.parts.len() > 0
            && content.model_turn->0.parts[0].inline_data is Some {
            Some(content.model_turn->0.parts[0].inline_data->0.data)
        } else {
            None
        }
    } else {
        None
    }
}

/// The audio that a message carries in its first part, if there is any and it is valid base64.
pub open spec fn audio_of(message: MessageModel) -> Option<Seq<i16>> {
    match audio_text(message) {
        Some(text) => match codec::base64_data(text) {
            Some(data) => Some(pcm::samples(data)),
            None => None,
        },
        None => None,
    }
}

/// Whether a message can hold that many samples: their base64 text has to fit in memory.
pub open spec fn fits_message(n: nat) -> bool {
    codec::base64_len(2 * n) <= isize::MAX
}

/// Whether a message can hold that many samples.
pub fn samples_fit_message(n: usize) -> (fits: bool)
    ensures
        fits == fits_message(n as nat),
{
    (2 * (n as u128) + 2) / 3 * 4 <= isize::MAX as u128
}

/// Cut the input into the chunks that the resampler takes one by one, in order.
pub fn resample_chunks(input: &[i16]) -> (result: Vec<Vec<i16>>)
    ensures
        chunks_view(result@) == chunks(input@),
{
    let mut result: Vec<Vec<i16>> = Vec::new();
    let mut pos: usize = 0;
    while pos < input.len()
        invariant
            pos <= input@.len(),
            pos == input@.len() || pos == result@.len() * CHUNK_SIZE,
            pos == input@.len() ==> result@.len() == chunk_count(input@.len()),
            pos < input@.len() ==> result@.len() < chunk_count(input@.len()),
            forall|k: int| 0 <= k < result@.len() ==> #[trigger] result@[k]@ == chunk(input@, k),
        decreases input@.len() - pos,
    {
        let end: usize = if input.len() - pos < CHUNK_SIZE {
            input.len()
        } else {
            pos + CHUNK_SIZE
        };
        let ghost k = result@.len() as int;
        let mut chunk: Vec<i16> = Vec::new();
        let mut i: usize = pos;
        while i < end
            invariant
                pos <= i <= end <= input@.len(),
                end - pos <= CHUNK_SIZE,
                chunk@ == input@.subrange(pos as int, i as int),
            decreases end - i,
        {
            chunk.push(input[i]);
            i = i + 1;
            assert(chunk@ =~= input@.subrange(pos as int, i as int));
        }
        while chunk.len() < CHUNK_SIZE
            invariant
                end - pos <= chunk@.len() <= CHUNK_SIZE,
                pos <= end <= input@.len(),
                forall|j: int|
                    0 <= j < chunk@.len() ==> #[trigger] chunk@[j] == if j < end - pos {
                        input@[pos + j]
                    } else {
                        0i16
                    },
            decreases CHUNK_SIZE - chunk@.len(),
        {
            chunk.push(0);
        }
        assert(chunk@ =~= self::chunk(input@, k));
        result.push(chunk);
        pos = end;
    }
    assert(chunks_view(result@) =~= chunks(input@));
    result
}

/// Resample audio from 16kHz to 24kHz, given what the resampler made of the chunks.
pub fn resample_16k_to_24k(input: &[i16], resampled: &Resampled) -> (result: Result<
    Vec<i16>,
    String,
>)
    ensures
        match result {
            Ok(samples) => resampled_audio(input@, *resampled) == Ok::<Seq<i16>, Seq<char>>(
                samples@,
            ),
            Err(e) => resampled_audio(input@, *resampled) == Err::<Seq<i16>, Seq<char>>(e@),
        },
{
    if input.len() == 0 {
        return Ok(Vec::new());
    }
    match resampled {
        Err(e) => {
            let message: String = "Failed to create resampler: ".to_owned();
            Err(message.concat(e.as_str()))
        },
        Ok(outputs) => {
            let mut result: Vec<i16> = Vec::new();
            let mut i: usize = 0;
            while i < outputs.len()
                invariant
                    i <= outputs@.len(),
                    result@ == joined(outputs@.take(i as int)),
                decreases outputs@.len() - i,
            {
                assert(outputs@.take(i + 1).drop_last() =~= outputs@.take(i as int));
                match &outputs[i] {
                    Some(samples) => {
                        let ghost before = result@;
                        result.extend_from_slice(samples.as_slice());
                        assert(result@ =~= before + samples@);
                    },
                    None => {
                        assert(result@ =~= result@ + Seq::<i16>::empty());
                    },
                }
                i = i + 1;
            }
            assert(outputs@.take(i as int) =~= outputs@);
            Ok(result)
        },
    }
}

/// Generate an audio response by upsampling input audio from 16kHz to 24kHz, given what the
/// resampler made of the chunks.
pub fn generate_audio_response(input_samples: &[i16], resampled: &Resampled) -> (result: Result<
    ServerContentMessage,
    String,
>)
    requires
        resampled_audio(input_samples@, *resampled) matches Ok(samples) ==> fits_message(
            samples.len(),
        ),
    ensures
        match result {
            Ok(message) => {
                &&& resampled_audio(input_samples@, *resampled) matches Ok(samples)
                &&& message@ == audio_message(samples)
                &&& audio_of(message@) == Some(samples)
                &&& audio_text(message@) matches Some(text) && codec::base64_data(text) == Some(
                    pcm::bytes(samples),
                )
            },
            Err(e) => resampled_audio(input_samples@, *resampled) == Err::<Seq<i16>, Seq<char>>(e@),
        },
{
    let output_samples: Vec<i16> = match resample_16k_to_24k(input_samples, resampled) {
        Ok(samples) => samples,
        Err(e) => {
            return Err(e);
        },
    };
    let bytes: Vec<u8> = pcm::bytes_from_samples(output_samples.as_slice());
    let encoded: String = codec::base64_encode(bytes.as_slice());
    let part = Part {
        text: None,
        inline_data: Some(
            InlineData { mime_type: "audio/pcm;rate=24000".to_owned(), data: encoded },
        ),
    };
    proof {
        pcm::law_samples_read_back(output_samples@);
    }
    Ok(model_turn(part))
}

/// The audio that a message carries in its first part, if there is any and it is valid base64.
pub fn audio_samples(message: &ServerContentMessage) -> (samples: Option<Vec<i16>>)
    ensures
        match samples {
            Some(s) => audio_of(message@) == Some(s@),
            None => audio_of(message@) is None,
        },
{
    let ghost turn = message@->ServerContent_0.model_turn;
    match &message.server_content.model_turn {
        Some(content) => {
            if content.parts.len() == 0 {
                return None;
            }
            assert(turn->0.parts[0] == content.parts@[0]@);
            match &content.parts[0].inline_data {
                Some(inline_data) => match codec::base64_decode(inline_data.data.as_str()) {
                    Some(bytes) => Some(pcm::samples_from_bytes(bytes.as_slice())),
                    None => None,
                },
                None => None,
            }
        },
        None => None,
    }
}

// ---------------------------------------------------------------------------------------------
// Laws
// ---------------------------------------------------------------------------------------------

/// The chunks hold the whole input in order, each is full, and only the last may end in silence
/// that was not in the input.
pub proof fn law_chunks_hold_the_input(input: Seq<i16>)
    ensures
        chunks(input).len() * CHUNK_SIZE >= input.len(),
        input.len() > 0 ==> (chunks(input).len() - 1) * CHUNK_SIZE < input.len(),
        input.len() == 0 ==> chunks(input).len() == 0,
        forall|k: int|
            0 <= k < chunks(input).len() ==> (#[trigger] chunks(input)[k]).len() == CHUNK_SIZE,
        forall|k: int, i: int|
            0 <= k < chunks(input).len() && 0 <= i < CHUNK_SIZE ==> #[trigger] chunks(input)[k][i]
                == if k * CHUNK_SIZE + i < input.len() {
                input[k * CHUNK_SIZE + i]
            } else {
                0i16
            },
{
}

/// Chunks on which the resampler failed leave no trace, and the others come out in order.
pub proof fn law_joined_in_order(first: Seq<Option<Vec<i16>>>, second: Seq<Option<Vec<i16>>>)
    ensures
        joined(first + second) == joined(first) + joined(second),
        joined(first.push(None)) == joined(first),
    decreases second.len(),
{
    assert(first.push(None).drop_last() =~= first);
    assert(joined(first.push(None)) =~= joined(first));
    if second.len() == 0 {
        assert(first + second =~= first);
        assert(joined(first) + joined(second) =~= joined(first));
    } else {
        assert((first + second).drop_last() =~= first + second.drop_last());
        law_joined_in_order(first, second.drop_last());
        assert(joined(first + second) =~= joined(first) + joined(second));
    }
}

/// The text responses of different turns are different.
pub proof fn law_text_tells_turns_apart(m: nat, n: nat)
    requires
        text_message(m) == text_message(n),
    ensures
        m == n,
{
    let prefix = "Mock response #"@;
    let a = text_message(m)->ServerContent_0.model_turn->0.parts[0].text->0;
    let b = text_message(n)->ServerContent_0.model_turn->0.parts[0].text->0;
    assert(a == prefix + text::decimal(m));
    assert(b == prefix + text::decimal(n));
    assert(a.skip(prefix.len() as int) =~= text::decimal(m));
    assert(b.skip(prefix.len() as int) =~= text::decimal(n));
    text::law_decimal_tells_numbers_apart(m, n);
}

/// The response is all that the resampler gave: each output that there is stands in it whole, right
/// after what comes of the chunks before it and right before what comes of the chunks after it,
/// and a chunk on which the resampler failed leaves nothing. Of no chunks, there is nothing.
pub proof fn law_every_output_is_kept(outputs: Seq<Option<Vec<i16>>>, i: int)
    requires
        0 <= i < outputs.len(),
    ensures
        joined(outputs) == joined(outputs.take(i)) + match outputs[i] {
            Some(samples) => samples@,
            None => Seq::<i16>::empty(),
        } + joined(outputs.skip(i + 1)),
        joined(outputs.take(0)) == Seq::<i16>::empty(),
{
    reveal_with_fuel(joined, 2);
    let one = seq![outputs[i]];
    assert(one.drop_last() =~= Seq::<Option<Vec<i16>>>::empty());
    assert(joined(one) =~= match outputs[i] {
        Some(samples) => samples@,
        None => Seq::<i16>::empty(),
    });
    assert(outputs =~= outputs.take(i) + one + outputs.skip(i + 1));
    law_joined_in_order(outputs.take(i) + one, outputs.skip(i + 1));
    law_joined_in_order(outputs.take(i), one);
}

/// One more output adds its samples at the end, all of them; one more failure adds nothing.
pub proof fn law_one_more_output(outputs: Seq<Option<Vec<i16>>>, samples: Vec<i16>)
    ensures
        joined(outputs.push(Some(samples))) == joined(outputs) + samples@,
        joined(outputs.push(None)) == joined(outputs),
{
    assert(outputs.push(Some(samples)).drop_last() =~= outputs);
    assert(outputs.push(None).drop_last() =~= outputs);
    assert(joined(outputs.push(None)) =~= joined(outputs));
}

/// How many samples the resampler gave for all chunks together.
pub open spec fn samples_given(outputs: Seq<Option<Vec<i16>>>) -> nat
    decreases outputs.len(),
{
    if outputs.len() == 0 {
        0
    } else {
        samples_given(outputs.drop_last()) + match outputs.last() {
            Some(samples) => samples@.len(),
            None => 0,
        }
    }
}

/// The response is as long as all the outputs together.
pub proof fn law_no_sample_is_lost(outputs: Seq<Option<Vec<i16>>>)
    ensures
        joined(outputs).len() == samples_given(outputs),
    decreases outputs.len(),
{
    if outputs.len() > 0 {
        law_no_sample_is_lost(outputs.drop_last());
    }
}

/// Audio is resampled as the resampler says, whatever the audio is; of no audio there is none, and
/// where the resampler could not be set up the error names its reason.
pub proof fn law_resampled_as_given(input: Seq<i16>, outputs: Vec<Option<Vec<i16>>>, error: String)
    ensures
        input.len() > 0 ==> resampled_audio(input, Ok(outputs)) == Ok::<Seq<i16>, Seq<char>>(
            joined(outputs@),
        ),
        input.len() > 0 ==> resampled_audio(input, Err(error)) == Err::<Seq<i16>, Seq<char>>(
            "Failed to create resampler: "@ + error@,
        ),
        input.len() == 0 ==> resampled_audio(input, Ok(outputs)) == Ok::<Seq<i16>, Seq<char>>(
            Seq::empty(),
        ),
        input.len() == 0 ==> resampled_audio(input, Err(error)) == Ok::<Seq<i16>, Seq<char>>(
            Seq::empty(),
        ),
{
}

/// A vector of chunks is seen whole, chunk by chunk.
pub proof fn law_chunks_are_seen_whole(v: Seq<Vec<i16>>, i: int)
    ensures
        chunks_view(v).len() == v.len(),
        0 <= i < v.len() ==> chunks_view(v)[i] == v[i]@,
{
}

/// A message holds so many samples if and only if their base64 text, four characters for each
/// three bytes that have begun and two bytes for each sample, is no longer than an `isize` can say.
pub proof fn law_what_fits(n: nat)
    ensures
        fits_message(n) <==> (2 * n + 2) / 3 * 4 <= isize::MAX,
{
}

/// The text response says which turn it belongs to, and nothing else: one part of the model's turn,
/// with text alone.
pub proof fn law_text_response(turn_number: nat)
    ensures
        ({
            let content = text_message(turn_number)->ServerContent_0;
            let turn = content.model_turn->0;
            &&& text_message(turn_number) is ServerContent
            &&& content.model_turn is Some
            &&& content.turn_complete is None
            &&& content.interrupted is None
            &&& turn.role == Some("model"@)
            &&& turn.parts.len() == 1
            &&& turn.parts[0].inline_data is None
            &&& turn.parts[0].text == Some("Mock response #"@ + text::decimal(turn_number))
        }),
{
}

/// The audio response carries the bytes of the samples in base64, with the rate in its type, and
/// nothing else: one part of the model's turn, with data alone.
pub proof fn law_audio_response(samples: Seq<i16>)
    ensures
        ({
            let content = audio_message(samples)->ServerContent_0;
            let turn = content.model_turn->0;
            &&& audio_message(samples) is ServerContent
            &&& content.model_turn is Some
            &&& content.turn_complete is None
            &&& content.interrupted is None
            &&& turn.role == Some("model"@)
            &&& turn.parts.len() == 1
            &&& turn.parts[0].text is None
            &&& turn.parts[0].inline_data is Some
            &&& turn.parts[0].inline_data->0.mime_type == "audio/pcm;rate=24000"@
            &&& turn.parts[0].inline_data->0.data == codec::base64_text(pcm::bytes(samples))
        }),
{
}

/// The two signals say what they say and carry no content; a tool call is one call with the given
/// identifier and the one argument; and the usage adds up.
pub proof fn law_signals_and_calls(call_id: Seq<char>)
    ensures
        ({
            let complete = turn_complete_message()->ServerContent_0;
            let interrupted = interrupted_message()->ServerContent_0;
            &&& turn_complete_message() is ServerContent
            &&& interrupted_message() is ServerContent
            &&& complete.model_turn is None
            &&& complete.turn_complete == Some(true)
            &&& complete.interrupted is None
            &&& interrupted.model_turn is None
            &&& interrupted.turn_complete is None
            &&& interrupted.interrupted == Some(true)
        }),
        ({
            let usage = usage_message()->UsageMetadata_0;
            &&& usage_message() is UsageMetadata
            &&& usage.prompt_token_count == 10
            &&& usage.response_token_count == 5
            &&& usage.total_token_count == usage.prompt_token_count + usage.response_token_count
        }),
        ({
            let calls = tool_call_message(call_id)->function_calls;
            &&& tool_call_message(call_id) is ToolCall
            &&& calls.len() == 1
            &&& calls[0].id == call_id
            &&& calls[0].name == "get_data"@
            &&& calls[0].args.len() == 1
            &&& calls[0].args[0] == ("query"@, "mock_query"@)
        }),
{
}

/// The audio of a message is read from the data of its first part alone.
pub proof fn law_audio_is_in_the_first_part(content: ServerContentModel, other: MessageModel)
    ensures
        ({
            let message = MessageModel::ServerContent(content);
            let has_data = content.model_turn is Some && content.model_turn->0.parts.len() > 0
                && content.model_turn->0.parts[0].inline_data is Some;
            let decoded = codec::base64_data(content.model_turn->0.parts[0].inline_data->0.data);
            &&& audio_of(message) is Some <==> has_data && decoded is Some
            &&& has_data && decoded is Some ==> audio_of(message) == Some(pcm::samples(decoded->0))
        }),
        !(other is ServerContent) ==> audio_of(other) is None,
{
}

} // verus!
