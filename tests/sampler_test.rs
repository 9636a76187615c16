use opencode_runner::sampler::{is_completion_event, should_send_to_ui, Sampler, SamplerEvent};

#[test]
fn test_sampler_basic() {
    let mut sampler = Sampler::new(5);

    sampler.add_line("Line 1");
    sampler.add_line("Line 2");
    sampler.add_line("Line 3");

    assert_eq!(sampler.line_count(), 3);
    assert!(sampler.sample().contains("Line 1"));
    assert!(sampler.sample().contains("Line 2"));
    assert!(sampler.sample().contains("Line 3"));
}

#[test]
fn test_sampler_overflow() {
    let mut sampler = Sampler::new(3);

    sampler.add_line("Line 1");
    sampler.add_line("Line 2");
    sampler.add_line("Line 3");
    sampler.add_line("Line 4");
    sampler.add_line("Line 5");

    assert_eq!(sampler.line_count(), 3);
    let sample = sampler.sample();
    assert!(!sample.contains("Line 1"));
    assert!(!sample.contains("Line 2"));
    assert!(sample.contains("Line 3"));
    assert!(sample.contains("Line 4"));
    assert!(sample.contains("Line 5"));
}

#[test]
fn test_sampler_empty_lines() {
    let mut sampler = Sampler::new(5);

    sampler.add_line("Line 1");
    sampler.add_line("");
    sampler.add_line("   ");
    sampler.add_line("Line 2");

    assert_eq!(sampler.line_count(), 2);
}

#[test]
fn sampler_test_test_sampler_clear() {
    let mut sampler = Sampler::new(5);

    sampler.add_line("Line 1");
    sampler.add_line("Line 2");
    assert_eq!(sampler.line_count(), 2);

    sampler.clear();
    assert_eq!(sampler.line_count(), 0);
    assert!(sampler.sample().is_empty());
}

#[test]
fn test_sampler_add_line() {
    let mut sampler = Sampler::new(10);
    sampler.add_line("Test content");
    assert_eq!(sampler.line_count(), 1);
    assert!(sampler.sample().contains("Test content"));
}

#[test]
fn test_sampler_process_event_part_added() {
    let mut sampler = Sampler::new(10);
    let event = SamplerEvent::PartAdded {
        text: "This is a test message".to_string(),
    };
    sampler.process_event(&event);

    let sample = sampler.sample();
    assert!(sample.contains("This is a test message"));
    assert_eq!(sampler.line_count(), 1);
}

#[test]
fn test_sampler_process_event_part_updated() {
    let mut sampler = Sampler::new(10);
    let event = SamplerEvent::PartUpdated {
        delta: "Updated content\nAdditional line".to_string(),
    };
    sampler.process_event(&event);

    let sample = sampler.sample();
    assert!(sample.contains("Updated content"));
    assert!(sample.contains("Additional line"));
    assert_eq!(sampler.line_count(), 2);
}

#[test]
fn test_sampler_process_event_tool_call() {
    let mut sampler = Sampler::new(10);
    let mut params = serde_json::Map::new();
    params.insert("pattern".to_string(), serde_json::Value::String("test".to_string()));
    let event = SamplerEvent::ToolCall {
        name: "grep".to_string(),
        params: serde_json::to_string(&serde_json::Value::Object(params)).unwrap(),
    };
    sampler.process_event(&event);

    let sample = sampler.sample();
    assert!(sample.contains("[Tool: grep"));
    assert_eq!(sample, "[Tool: grep({\"pattern\":\"test\"})]");
}

#[test]
fn test_sampler_process_event_tool_result_skipped() {
    let mut sampler = Sampler::new(10);
    let event = SamplerEvent::ToolResult {
        result: serde_json::to_string(&serde_json::Value::String("very verbose output...".to_string())).unwrap(),
    };
    sampler.process_event(&event);

    let sample = sampler.sample();
    assert!(!sample.contains("very verbose output"));
    assert_eq!(sampler.line_count(), 0);
}

#[test]
fn test_sampler_process_event_error() {
    let mut sampler = Sampler::new(10);
    let event = SamplerEvent::Error {
        error: "Some error occurred".to_string(),
    };
    sampler.process_event(&event);

    let sample = sampler.sample();
    assert!(sample.contains("[Error: Some error occurred]"));
}

#[test]
fn test_sampler_process_event_thinking_skipped() {
    let mut sampler = Sampler::new(10);
    let event = SamplerEvent::Thinking {
        thought: "Let me think about this...".to_string(),
    };
    sampler.process_event(&event);

    let sample = sampler.sample();
    assert!(!sample.contains("Let me think about this..."));
    assert_eq!(sampler.line_count(), 0);
}

#[test]
fn test_sampler_whitespace_trimmed() {
    let mut sampler = Sampler::new(10);

    sampler.add_line("  Leading spaces");
    sampler.add_line("Trailing spaces  ");
    sampler.add_line("Multiple   spaces between words");

    assert_eq!(sampler.line_count(), 3);
    let sample = sampler.sample();
    assert!(sample.contains("Leading spaces"));
    assert!(sample.contains("Trailing spaces"));
    assert!(sample.contains("spaces between words"));
    assert!(!sample.contains("  Leading spaces"));
    assert!(!sample.contains("Trailing spaces  "));
}

// Capacity three keeps the last three of ten lines: 8, 9 and 10.
#[test]
fn test_sampler_buffer_overflow() {
    let mut sampler = Sampler::new(3);

    for i in 1..=10 {
        sampler.add_line(&format!("Line {}", i));
    }

    assert_eq!(sampler.line_count(), 3);
    let sample = sampler.sample();
    assert_eq!(sample, "Line 8\nLine 9\nLine 10");
    assert!(!sample.contains("Line 2"));
    assert!(!sample.contains("Line 3"));
    assert!(!sample.contains("Line 4"));
    assert!(!sample.contains("Line 5"));
    assert!(!sample.contains("Line 6"));
    assert!(!sample.contains("Line 7"));
    assert!(sample.contains("Line 8"));
    assert!(sample.contains("Line 9"));
    assert!(sample.contains("Line 10"));
}

#[test]
fn test_sampler_max_lines_preservation() {
    let mut sampler = Sampler::new(5);

    for i in 1..=5 {
        sampler.add_line(&format!("Line {}", i));
    }

    assert_eq!(sampler.line_count(), 5);
    let sample = sampler.sample();
    assert_eq!(sample.lines().count(), 5);

    sampler.add_line("Line 6");
    assert_eq!(sampler.line_count(), 5);
    let sample = sampler.sample();
    assert!(!sample.contains("Line 1"));
    assert!(sample.contains("Line 2"));
    assert!(sample.contains("Line 6"));
}

#[test]
fn test_sampler_complex_text() {
    let mut sampler = Sampler::new(20);

    let text = "Line 1: Start of processing
Line 2: Intermediate step
Line 3: Final result
Line 4: Additional notes";
    sampler.add_lines(text);

    assert_eq!(sampler.line_count(), 4);
    let sample = sampler.sample();
    assert!(sample.contains("Line 1: Start of processing"));
    assert!(sample.contains("Line 2: Intermediate step"));
    assert!(sample.contains("Line 3: Final result"));
    assert!(sample.contains("Line 4: Additional notes"));
}

#[test]
fn test_sampler_empty_buffer() {
    let sampler = Sampler::new(5);
    assert_eq!(sampler.line_count(), 0);
    assert!(sampler.sample().is_empty());
}

#[test]
fn test_sampler_single_line() {
    let mut sampler = Sampler::new(5);
    sampler.add_line("Single line");
    assert_eq!(sampler.line_count(), 1);
    assert!(sampler.sample().contains("Single line"));
}

#[test]
fn test_sampler_repeated_lines() {
    let mut sampler = Sampler::new(5);
    sampler.add_line("Repeated");
    sampler.add_line("Repeated");
    sampler.add_line("Repeated");

    assert_eq!(sampler.line_count(), 3);
    let sample = sampler.sample();
    assert!(sample.contains("Repeated"));
    assert_eq!(sample.matches("Repeated").count(), 3);
}

#[test]
fn test_sampler_special_characters() {
    let mut sampler = Sampler::new(5);
    sampler.add_line("Line with special chars: @#$%^&*()");
    sampler.add_line("Line with emojis: 🎉🎉🎉");
    sampler.add_line("Line with unicode: 你好世界");

    assert_eq!(sampler.line_count(), 3);
    let sample = sampler.sample();
    assert!(sample.contains("special chars"));
    assert!(sample.contains("emojis"));
    assert!(sample.contains("unicode"));
}

#[test]
fn capacity_three_keeps_last_three_single_letters() {
    let mut sampler = Sampler::new(3);
    for l in ["a", "b", "c", "d", "e"] {
        sampler.add_line(l);
    }
    assert_eq!(sampler.sample(), "c\nd\ne");
    assert_eq!(sampler.line_count(), 3);
}

#[test]
fn line_count_never_exceeds_capacity() {
    let mut sampler = Sampler::new(4);
    for i in 0..50 {
        sampler.add_line(&format!("  entry {}  ", i));
        assert!(sampler.line_count() <= 4);
    }
}

#[test]
fn more_lines_than_capacity_in_one_call_keep_the_latest() {
    let mut sampler = Sampler::new(3);
    sampler.add_lines("one\ntwo\n\n  three \nfour\r\nfive\n");
    assert_eq!(sampler.sample(), "three\nfour\nfive");
}

#[test]
fn blank_lines_leave_count_unchanged() {
    let mut sampler = Sampler::new(3);
    sampler.add_line("kept");
    for blank in ["", " ", "\t", "\n", " \r\n\t "] {
        sampler.add_line(blank);
        assert_eq!(sampler.line_count(), 1);
    }
    assert_eq!(sampler.sample(), "kept");
}

#[test]
fn clear_then_sample_is_empty() {
    let mut sampler = Sampler::new(2);
    sampler.add_lines("x\ny\nz");
    sampler.clear();
    assert_eq!(sampler.sample(), "");
    assert_eq!(sampler.line_count(), 0);
    sampler.add_line("after");
    assert_eq!(sampler.sample(), "after");
}

#[test]
fn sample_twice_is_identical() {
    let mut sampler = Sampler::new(3);
    sampler.add_lines("p\nq");
    let first = sampler.sample();
    let second = sampler.sample();
    assert_eq!(first, second);
    assert_eq!(first, "p\nq");
}

#[test]
fn zero_capacity_is_always_empty() {
    let mut sampler = Sampler::new(0);
    sampler.add_line("lost");
    sampler.add_lines("a\nb");
    assert_eq!(sampler.line_count(), 0);
    assert_eq!(sampler.sample(), "");
}

#[test]
fn other_events_are_ignored() {
    let mut sampler = Sampler::new(5);
    sampler.process_event(&SamplerEvent::Progress { message: "50%".to_string() });
    sampler.process_event(&SamplerEvent::MessageCompleted { message_id: "m".to_string() });
    sampler.process_event(&SamplerEvent::SessionCompleted { session_id: "s".to_string() });
    sampler.process_event(&SamplerEvent::Unrecognized);
    assert_eq!(sampler.line_count(), 0);
}

#[test]
fn completion_and_forwarding_predicates() {
    assert!(is_completion_event(&SamplerEvent::MessageCompleted { message_id: "m".to_string() }));
    assert!(is_completion_event(&SamplerEvent::SessionCompleted { session_id: "s".to_string() }));
    assert!(!is_completion_event(&SamplerEvent::PartAdded { text: "t".to_string() }));
    assert!(!is_completion_event(&SamplerEvent::Unrecognized));
    assert!(should_send_to_ui(&SamplerEvent::PartAdded { text: "t".to_string() }));
    assert!(should_send_to_ui(&SamplerEvent::PartUpdated { delta: "d".to_string() }));
    assert!(should_send_to_ui(&SamplerEvent::ToolCall { name: "n".to_string(), params: "{}".to_string() }));
    assert!(!should_send_to_ui(&SamplerEvent::Error { error: "e".to_string() }));
    assert!(!should_send_to_ui(&SamplerEvent::Thinking { thought: "t".to_string() }));
}
