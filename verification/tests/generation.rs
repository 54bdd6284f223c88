use cake_core::chat::Role;
use cake_core::config::{Context, Mode};
use cake_core::errors::MasterError;
use cake_core::generator::Generator;
use cake_core::master::{Master, RunOutcome};
use cake_core::scripted::ScriptedGenerator;
use cake_core::sink::{Sink, VecSink};
use cake_core::token::Token;

fn local_ctx(system_prompt: &str, prompt: &str, sample_len: usize) -> Context {
    Context {
        api: None,
        system_prompt: system_prompt.to_string(),
        prompt: prompt.to_string(),
        sample_len,
    }
}

fn scripted(texts: &[&str], end_of_stream: bool) -> ScriptedGenerator {
    let mut script: Vec<Token> = texts.iter().map(|t| Token::text(t.to_string())).collect();
    if end_of_stream {
        script.push(Token::end_of_stream());
    }
    ScriptedGenerator {
        script,
        messages: Vec::new(),
        count: 0,
        fail_at: None,
        fail_append: false,
        fail_reset: false,
    }
}

fn local_master(
    prompt: &str,
    sample_len: usize,
    generator: ScriptedGenerator,
) -> Master<ScriptedGenerator> {
    Master { ctx: local_ctx("be helpful", prompt, sample_len), model: Box::new(generator) }
}

#[test]
fn early_end_of_stream_stops_before_the_bound() {
    // Bound of 3, but the backend ends the stream after two tokens.
    let mut master = local_master("say hi: ", 3, scripted(&["A", "B"], true));
    let mut sink = VecSink::new();
    let telemetry = master.generate(&mut sink).unwrap();
    assert_eq!(sink.items, vec!["say hi: ", "A", "B", ""]);
    // Two shown tokens plus the end-of-stream token itself were produced.
    assert_eq!(telemetry.generated, 3);
}

#[test]
fn bound_stops_generation_without_end_of_stream() {
    // Bound of 2 and no end-of-stream in reach: the bound ends the loop.
    let mut master = local_master("say hi: ", 2, scripted(&["X", "Y", "Z"], false));
    let mut sink = VecSink::new();
    let telemetry = master.generate(&mut sink).unwrap();
    assert_eq!(sink.items, vec!["say hi: ", "X", "Y", ""]);
    assert_eq!(telemetry.generated, 2);
}

#[test]
fn end_of_stream_just_past_the_bound_is_never_requested() {
    // The end-of-stream token sits at step 1, but the bound is 1: the
    // loop exits at the bound and never asks for step 1.
    let mut master = local_master("p", 1, scripted(&["A"], true));
    let mut sink = VecSink::new();
    let telemetry = master.generate(&mut sink).unwrap();
    assert_eq!(sink.items, vec!["p", "A", ""]);
    assert_eq!(telemetry.generated, 1);
}

#[test]
fn immediate_end_of_stream_shows_no_token_but_counts_one_request() {
    let mut master = local_master("p", 5, scripted(&[], true));
    let mut sink = VecSink::new();
    let telemetry = master.generate(&mut sink).unwrap();
    assert_eq!(sink.items, vec!["p", ""]);
    assert_eq!(telemetry.generated, 1);
}

#[test]
fn prompt_comes_first_even_with_empty_script() {
    let mut master = local_master("prompt", 4, scripted(&[], true));
    let mut sink = VecSink::new();
    master.generate(&mut sink).unwrap();
    assert_eq!(sink.items.first().map(String::as_str), Some("prompt"));
}

#[test]
fn zero_bound_emits_prompt_and_marker_without_backend_requests() {
    let mut master = local_master("prompt", 0, scripted(&["A"], true));
    let mut sink = VecSink::new();
    let telemetry = master.generate(&mut sink).unwrap();
    assert_eq!(sink.items, vec!["prompt", ""]);
    assert_eq!(telemetry.generated, 0);
    assert_eq!(master.model.count, 0);
}

#[test]
fn telemetry_is_consistent_with_the_throughput_rule() {
    let mut master = local_master("p", 5, scripted(&["a", "b", "c", "d", "e"], false));
    let mut sink = VecSink::new();
    let telemetry = master.generate(&mut sink).unwrap();
    assert_eq!(telemetry.generated, 5);
    let expected = cake_core::telemetry::tokens_per_sec(
        telemetry.generated,
        telemetry.elapsed_micros,
    );
    assert_eq!(telemetry.tokens_per_sec, expected);
}

#[test]
fn throughput_is_unavailable_for_warmup_only_counts() {
    assert_eq!(cake_core::telemetry::tokens_per_sec(0, 1_000_000), None);
    assert_eq!(cake_core::telemetry::tokens_per_sec(1, 1_000_000), None);
}

#[test]
fn throughput_is_unavailable_for_zero_elapsed_time() {
    assert_eq!(cake_core::telemetry::tokens_per_sec(5, 0), None);
}

#[test]
fn throughput_excludes_the_warmup_token() {
    // 5 tokens in 2 seconds: 4 post-warmup tokens over 2 s is 2 tokens/s.
    assert_eq!(cake_core::telemetry::tokens_per_sec(5, 2_000_000), Some(2));
    // 3 tokens in 1.5 s: 2 post-warmup tokens over 1.5 s rounds down to 1.
    assert_eq!(cake_core::telemetry::tokens_per_sec(3, 1_500_000), Some(1));
}

#[test]
fn backend_failure_aborts_without_end_of_stream_marker() {
    let mut generator = scripted(&["A", "B", "C"], false);
    generator.fail_at = Some(1);
    let mut master = local_master("p", 3, generator);
    let mut sink = VecSink::new();
    let result = master.generate(&mut sink);
    assert!(result.is_err());
    // The prompt and the one token produced before the failure stay with
    // the sink; no empty end-of-stream marker follows them.
    assert_eq!(sink.items, vec!["p", "A"]);
}

#[test]
fn run_in_local_mode_streams_one_generation() {
    let master = local_master("ask: ", 3, scripted(&["A", "B"], true));
    let mut sink = VecSink::new();
    match master.run(&mut sink).unwrap() {
        RunOutcome::Completed(telemetry) => assert_eq!(telemetry.generated, 3),
        RunOutcome::Served(_) => panic!("a local session must not be handed back for serving"),
    }
    assert_eq!(sink.items, vec!["ask: ", "A", "B", ""]);
}

#[test]
fn run_in_served_mode_hands_the_session_back_untouched() {
    let ctx = Context {
        api: Some("127.0.0.1:8080".to_string()),
        system_prompt: "sys".to_string(),
        prompt: "user".to_string(),
        sample_len: 7,
    };
    assert_eq!(ctx.mode(), Mode::Served);
    let master = Master::<ScriptedGenerator> { ctx, model: Box::new(scripted(&["A"], true)) };
    let mut sink = VecSink::new();
    match master.run(&mut sink).unwrap() {
        RunOutcome::Served(handed_back) => {
            assert_eq!(handed_back.ctx.prompt, "user");
            assert_eq!(handed_back.ctx.sample_len, 7);
            assert!(handed_back.model.messages.is_empty());
        }
        RunOutcome::Completed(_) => panic!("a served session must not generate locally"),
    }
    assert!(sink.items.is_empty());
}

#[test]
fn failed_append_aborts_before_anything_reaches_the_sink() {
    let mut generator = scripted(&["A"], true);
    generator.fail_append = true;
    let master = local_master("p", 3, generator);
    let mut sink = VecSink::new();
    match master.run(&mut sink) {
        Err(MasterError::Append(e)) => assert!(!e.message.is_empty()),
        _ => panic!("the induced append failure must surface as an append error"),
    }
    assert!(sink.items.is_empty());
}

#[test]
fn run_propagates_a_token_failure() {
    let mut generator = scripted(&["A", "B"], false);
    generator.fail_at = Some(0);
    let master = local_master("p", 2, generator);
    let mut sink = VecSink::new();
    match master.run(&mut sink) {
        Err(MasterError::Token(e)) => assert!(!e.message.is_empty()),
        _ => panic!("the induced token failure must surface as a token error"),
    }
    assert_eq!(sink.items, vec!["p"]);
}

#[test]
fn reset_clears_state_for_a_new_inference() {
    let mut master = local_master("p", 4, scripted(&["A", "B"], true));
    let mut sink = VecSink::new();
    master.generate(&mut sink).unwrap();
    assert_eq!(master.model.generated_tokens(), 3);
    master.reset().unwrap();
    assert_eq!(master.model.generated_tokens(), 0);
    assert!(master.model.messages.is_empty());
}

#[test]
fn reset_failure_surfaces() {
    let mut generator = scripted(&[], true);
    generator.fail_reset = true;
    let mut master = local_master("p", 1, generator);
    assert!(master.reset().is_err());
}

#[test]
fn reset_then_generate_matches_a_fresh_session() {
    // One session generates, is reset, and generates again; a fresh
    // session with the same configuration and the same script generates
    // once. The two final streams must agree value for value.
    let mut first = local_master("p: ", 5, scripted(&["A", "B", "C"], true));
    let mut scratch = VecSink::new();
    first.generate(&mut scratch).unwrap();
    first.reset().unwrap();
    let mut after_reset = VecSink::new();
    first.generate(&mut after_reset).unwrap();

    let mut fresh = local_master("p: ", 5, scripted(&["A", "B", "C"], true));
    let mut fresh_sink = VecSink::new();
    fresh.generate(&mut fresh_sink).unwrap();

    assert_eq!(after_reset.items, fresh_sink.items);
    assert_eq!(first.model.generated_tokens(), fresh.model.generated_tokens());
}

#[test]
fn new_loads_a_backend_from_the_configuration() {
    let master: Master<ScriptedGenerator> =
        Master::new(local_ctx("sys", "p", 2)).unwrap();
    assert!(master.model.messages.is_empty());
    assert_eq!(master.model.generated_tokens(), 0);
    assert_eq!(master.ctx.prompt, "p");
}

#[test]
fn messages_carry_their_role_and_text() {
    let system = cake_core::chat::Message::system("rules".to_string());
    assert_eq!(system.role, Role::System);
    assert_eq!(system.text, "rules");
    let user = cake_core::chat::Message::user("question".to_string());
    assert_eq!(user.role, Role::User);
    assert_eq!(user.text, "question");
}

#[test]
fn a_sink_collects_values_in_call_order() {
    let mut sink = VecSink::new();
    sink.accept("one");
    sink.accept("two");
    sink.accept("");
    assert_eq!(sink.items, vec!["one", "two", ""]);
}

#[test]
fn local_mode_is_selected_when_no_serving_address_is_configured() {
    assert_eq!(local_ctx("s", "p", 1).mode(), Mode::LocalGeneration);
}
