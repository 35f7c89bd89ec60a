use weave::config::PlatformConfig;
use weave::encoding::decode_audio;
use weave::http::HttpReply;
use weave::json::JsonMember;
use weave::pipeline::{
    asr_upload, begin, cleanup_post, process_transcription, read_cleaned, read_transcript,
    run_asr_service, run_llm_cleanup_service, transcribe_audio_chunk, AfterTranscription,
    CleanupStage, PipelineError, StageError, TranscriptionResponse, ASR_TIMEOUT_SECS,
    CLEANUP_TIMEOUT_SECS,
};

fn ok(body: &str) -> HttpReply {
    HttpReply::Response { status: 200, body: Some(body.to_string()) }
}

fn status(code: u16) -> HttpReply {
    HttpReply::Response { status: code, body: Some("Internal Server Error".to_string()) }
}

fn cleanup_stage(next: Result<AfterTranscription, PipelineError>) -> CleanupStage {
    match next.unwrap() {
        AfterTranscription::Cleanup(stage, _) => stage,
        AfterTranscription::Finished(_) => panic!("cleanup expected"),
    }
}

fn finished(next: Result<AfterTranscription, PipelineError>) -> TranscriptionResponse {
    match next.unwrap() {
        AfterTranscription::Finished(response) => response,
        AfterTranscription::Cleanup(_, _) => panic!("no cleanup expected"),
    }
}

#[test]
fn cleanup_failure_falls_back_to_asr_only() {
    let config = PlatformConfig::default();
    let (stage, upload) = process_transcription(&config, "aGVsbG8=", "ASR_PLUS_LLM", 1_000).unwrap();
    assert_eq!(upload.bytes, b"hello");
    let next = stage.transcribed(&ok("{\"text\": \"hi there\"}"), 1_250);
    let cleanup = cleanup_stage(next);
    let result = cleanup.cleaned(&status(500), 1_900);
    assert_eq!(result.native_transcript, "hi there");
    assert_eq!(result.summary_transcript, None);
    assert_eq!(result.mode, "ASR_ONLY");
    assert_eq!(result.timings.asr_ms, 250);
    assert_eq!(result.timings.llm_ms, None);
    assert_eq!(result.timings.total_ms, 900);
}

#[test]
fn every_cleanup_failure_degrades() {
    let replies = [
        HttpReply::Unreachable("timeout".to_string()),
        status(404),
        status(500),
        HttpReply::Response { status: 200, body: None },
        ok("not json"),
        ok("{}"),
        ok("{\"cleaned_text\": null, \"processedText\": 3}"),
        ok("{\"text\": \"wrong member\"}"),
    ];
    for reply in replies.iter() {
        let config = PlatformConfig::default();
        let (stage, _) = begin(&config, vec![1, 2, 3], "ASR_PLUS_LLM", 0);
        let cleanup = cleanup_stage(stage.transcribed(&ok("{\"text\": \"raw words\"}"), 10));
        let result = cleanup.cleaned(reply, 35);
        assert_eq!(result.native_transcript, "raw words");
        assert!(result.summary_transcript.is_none());
        assert!(result.timings.llm_ms.is_none());
        assert_eq!(result.timings.asr_ms, 10);
        assert_eq!(result.timings.total_ms, 35);
        assert_eq!(result.mode, "ASR_ONLY");
    }
}

#[test]
fn cleanup_success_gives_a_summary() {
    let config = PlatformConfig::default();
    let (stage, _) = begin(&config, vec![0; 16], "ASR_PLUS_LLM", 500);
    let next = stage.transcribed(&ok("{\"text\": \"um hi there\"}"), 800).unwrap();
    let (cleanup, post) = match next {
        AfterTranscription::Cleanup(stage, post) => (stage, post),
        AfterTranscription::Finished(_) => panic!("cleanup expected"),
    };
    assert_eq!(post.url, "http://localhost:9000/end-dictation");
    assert_eq!(post.fields.len(), 1);
    assert_eq!(post.fields[0].name, "text");
    assert_eq!(post.fields[0].value, "um hi there");
    assert_eq!(post.bearer, None);
    assert_eq!(post.timeout_secs, Some(60));
    let result = cleanup.cleaned(&ok("{\"cleaned_text\": \"Hi there.\"}"), 2_000);
    assert_eq!(result.native_transcript, "um hi there");
    assert_eq!(result.summary_transcript.as_deref(), Some("Hi there."));
    assert_eq!(result.mode, "ASR_PLUS_LLM");
    assert_eq!(result.timings.asr_ms, 300);
    assert_eq!(result.timings.llm_ms, Some(1_200));
    assert_eq!(result.timings.total_ms, 1_500);
}

#[test]
fn transcription_failure_is_an_error_and_asks_for_no_cleanup() {
    let cases: Vec<(HttpReply, &str)> = vec![
        (HttpReply::Unreachable("refused".to_string()), "ASR request failed: refused"),
        (status(500), "ASR service returned error: 500"),
        (status(404), "ASR service returned error: 404"),
        (HttpReply::Response { status: 200, body: None }, "Failed to parse ASR response"),
        (ok("<html>"), "Failed to parse ASR response"),
        (ok("{\"transcript\": \"x\"}"), "ASR response missing 'text' field"),
        (ok("{\"text\": 12}"), "ASR response missing 'text' field"),
        (ok("[1]"), "ASR response missing 'text' field"),
    ];
    for mode in ["ASR_ONLY", "ASR_PLUS_LLM"] {
        for (reply, message) in cases.iter() {
            let config = PlatformConfig::default();
            let (stage, _) = begin(&config, vec![1], mode, 0);
            match stage.transcribed(reply, 5) {
                Err(e) => {
                    assert!(matches!(e, PipelineError::Asr(_)));
                    assert_eq!(e.message(), *message);
                },
                Ok(_) => panic!("an error was expected"),
            }
        }
    }
}

#[test]
fn asr_only_is_repeatable() {
    let config = PlatformConfig::default();
    let reply = ok("{\"text\": \"same every time\"}");
    let (first, _) = process_transcription(&config, "AAEC", "ASR_ONLY", 10).unwrap();
    let a = finished(first.transcribed(&reply, 70));
    let (second, _) = process_transcription(&config, "AAEC", "ASR_ONLY", 5_000).unwrap();
    let b = finished(second.transcribed(&reply, 5_001));
    assert_eq!(a.native_transcript, "same every time");
    assert_eq!(a.native_transcript, b.native_transcript);
    assert_eq!(a.mode, "ASR_ONLY");
    assert_eq!(a.mode, b.mode);
    assert_eq!(a.summary_transcript, None);
    assert_eq!(b.summary_transcript, None);
    assert_eq!(a.timings.asr_ms, 60);
    assert_eq!(a.timings.llm_ms, None);
    assert_eq!(a.timings.total_ms, 60);
    assert_eq!(b.timings.asr_ms, 1);
    assert_eq!(b.timings.total_ms, 1);
}

#[test]
fn any_other_mode_means_asr_only() {
    for mode in ["", "asr_plus_llm", "ASR_PLUS_LLM ", "LLM"] {
        let config = PlatformConfig::default();
        let (stage, _) = begin(&config, vec![1], mode, 0);
        let r = finished(stage.transcribed(&ok("{\"text\": \"t\"}"), 1));
        assert_eq!(r.mode, "ASR_ONLY");
    }
}

#[test]
fn a_clock_that_runs_backwards_gives_zero() {
    let config = PlatformConfig::default();
    let (stage, _) = begin(&config, vec![1], "ASR_PLUS_LLM", 1_000);
    let cleanup = cleanup_stage(stage.proceed(Ok("t".to_string()), 900));
    let r = cleanup.finish(Ok("T".to_string()), 800);
    assert_eq!(r.timings.asr_ms, 0);
    assert_eq!(r.timings.llm_ms, Some(0));
    assert_eq!(r.timings.total_ms, 0);

    let (stage, _) = begin(&config, vec![1], "ASR_PLUS_LLM", 0);
    let cleanup = cleanup_stage(stage.proceed(Ok("t".to_string()), u64::MAX));
    let r = cleanup.finish(Ok("T".to_string()), u64::MAX);
    assert_eq!(r.timings.asr_ms, u64::MAX);
    assert_eq!(r.timings.llm_ms, Some(0));
    assert_eq!(r.timings.total_ms, u64::MAX);
}

#[test]
fn proceed_and_finish_take_outcomes() {
    let config = PlatformConfig::default();
    let (stage, _) = begin(&config, vec![1], "ASR_PLUS_LLM", 0);
    let e = stage.proceed(Err(StageError::Decode), 3).unwrap_err();
    assert!(matches!(e, PipelineError::Asr(StageError::Decode)));

    let (stage, _) = begin(&config, vec![1], "ASR_PLUS_LLM", 0);
    let cleanup = cleanup_stage(stage.proceed(Ok("words".to_string()), 3));
    let r = cleanup.finish(Err(StageError::Transport("x".to_string())), 9);
    assert_eq!(r.native_transcript, "words");
    assert_eq!(r.mode, "ASR_ONLY");
    assert_eq!(r.timings.total_ms, 9);
}

#[test]
fn invalid_base64_is_refused() {
    let config = PlatformConfig::default();
    for audio in ["%%%", "aGVsbG8", "aGVsbG8==", "a"] {
        let e = process_transcription(&config, audio, "ASR_ONLY", 0).unwrap_err();
        assert!(matches!(e, PipelineError::InvalidAudio));
        assert_eq!(e.message(), "Failed to decode audio");
        assert!(matches!(transcribe_audio_chunk(&config, audio), Err(PipelineError::InvalidAudio)));
        assert!(decode_audio(audio).is_none());
    }
}

#[test]
fn base64_is_decoded() {
    assert_eq!(decode_audio(""), Some(vec![]));
    assert_eq!(decode_audio("AA=="), Some(vec![0]));
    assert_eq!(decode_audio("/+8="), Some(vec![0xff, 0xef]));
    assert_eq!(decode_audio("aGVsbG8gd29ybGQ="), Some(b"hello world".to_vec()));
}

#[test]
fn upload_is_a_single_file_part() {
    let mut config = PlatformConfig::default();
    config.base_url = "https://asr.example".to_string();
    let upload = asr_upload(&config, vec![1, 2, 3]);
    assert_eq!(upload.url, "https://asr.example/transcribe");
    assert_eq!(upload.part_name, "file");
    assert_eq!(upload.file_name, "audio.webm");
    assert_eq!(upload.mime, "audio/webm");
    assert_eq!(upload.bytes, vec![1, 2, 3]);
    assert_eq!(upload.timeout_secs, 30);
    assert_eq!(ASR_TIMEOUT_SECS, 30);
    assert_eq!(CLEANUP_TIMEOUT_SECS, 60);
    assert!(ASR_TIMEOUT_SECS < CLEANUP_TIMEOUT_SECS);

    let upload = transcribe_audio_chunk(&config, "AQID").unwrap();
    assert_eq!(upload.url, "https://asr.example/transcribe");
    assert_eq!(upload.bytes, vec![1, 2, 3]);

    let post = cleanup_post("https://asr.example/clean", "words");
    assert_eq!(post.url, "https://asr.example/clean");
    assert_eq!(post.fields[0].name, "text");
    assert_eq!(post.fields[0].value, "words");
}

#[test]
fn cleanup_url_follows_the_configuration() {
    let mut config = PlatformConfig::default();
    config.base_url = "http://h:1".to_string();
    config.process_endpoint = "/tidy".to_string();
    let (stage, upload) = begin(&config, vec![], "ASR_PLUS_LLM", 0);
    assert_eq!(upload.url, "http://h:1/transcribe");
    match stage.transcribed(&ok("{\"text\": \"t\"}"), 0).unwrap() {
        AfterTranscription::Cleanup(_, post) => assert_eq!(post.url, "http://h:1/tidy"),
        AfterTranscription::Finished(_) => panic!("cleanup expected"),
    }
}

#[test]
fn asr_reply_is_read() {
    assert_eq!(run_asr_service(&ok("{\"text\": \"hi there\"}")).unwrap(), "hi there");
    assert_eq!(run_asr_service(&ok("{\"text\": \"\", \"lang\": \"en\"}")).unwrap(), "");
    let created = HttpReply::Response { status: 201, body: Some("{\"text\": \"x\"}".to_string()) };
    assert_eq!(run_asr_service(&created).unwrap(), "x");
    assert!(matches!(run_asr_service(&status(299 + 1)), Err(StageError::Status(300))));
    assert!(matches!(run_asr_service(&status(199)), Err(StageError::Status(199))));
    assert!(matches!(run_asr_service(&ok("{\"text\": null}")), Err(StageError::MissingText)));
    assert!(matches!(run_asr_service(&ok("{")), Err(StageError::Decode)));
    assert!(matches!(
        run_asr_service(&HttpReply::Unreachable("x".to_string())),
        Err(StageError::Transport(_))
    ));
    assert_eq!(read_transcript(JsonMember::Text("t".to_string())).unwrap(), "t");
    assert!(matches!(read_transcript(JsonMember::Absent), Err(StageError::MissingText)));
    assert!(matches!(read_transcript(JsonMember::Other), Err(StageError::MissingText)));
}

#[test]
fn cleanup_reply_prefers_cleaned_text() {
    assert_eq!(run_llm_cleanup_service(&ok("{\"cleaned_text\": \"A\"}")).unwrap(), "A");
    assert_eq!(run_llm_cleanup_service(&ok("{\"processedText\": \"B\"}")).unwrap(), "B");
    assert_eq!(
        run_llm_cleanup_service(&ok("{\"processedText\": \"B\", \"cleaned_text\": \"A\"}")).unwrap(),
        "A"
    );
    assert_eq!(
        run_llm_cleanup_service(&ok("{\"processedText\": \"B\", \"cleaned_text\": 1}")).unwrap(),
        "B"
    );
    assert_eq!(
        read_cleaned(JsonMember::Null, JsonMember::Text("B".to_string())).unwrap(),
        "B"
    );
    assert!(matches!(
        read_cleaned(JsonMember::Absent, JsonMember::Flag(true)),
        Err(StageError::MissingText)
    ));
    let cases: Vec<(HttpReply, &str)> = vec![
        (HttpReply::Unreachable("slow".to_string()), "LLM request failed: slow"),
        (status(500), "LLM service returned error: 500"),
        (status(65535), "LLM service returned error: 65535"),
        (status(0), "LLM service returned error: 0"),
        (ok("oops"), "Failed to parse LLM response"),
        (ok("{}"), "LLM response missing 'cleaned_text' field"),
    ];
    for (reply, message) in cases.iter() {
        assert_eq!(run_llm_cleanup_service(reply).unwrap_err().cleanup_message(), *message);
    }
}
